use vstd::prelude::*;
use crate::derivation::{derive_identity, derived_identity, derived_view};
use crate::identity::Identity;
use crate::members::errors::MembersError;
use crate::members::events::MembersInitialized;
use crate::members::state::MembersStore;
use crate::members::{RoleRegistry, MEMBERS_SEED};

verus! {

/// Creates the role registry of the component `program_id`, owned by `payer`,
/// from what the derivation of the singleton's address gave: no custodian, no
/// pending owner, no merchant, and the bump seed that was derived. It fails
/// with `InvalidProgramId` exactly where the derivation gave nothing. The
/// registry is well formed where `derived` is what `program_id` derives under
/// `MEMBERS_SEED`.
pub fn initialize_derived(program_id: Identity, payer: Identity, derived: Option<(Identity, u8)>) -> (r: Result<
    (RoleRegistry, MembersInitialized),
    MembersError,
>)
    ensures
        match r {
            Ok((registry, event)) => {
                &&& derived matches Some((_, bump)) && registry.store.bump == bump
                &&& registry.program_id == program_id
                &&& registry.store.owner == payer
                &&& registry.store.custodian.spec_is_zero()
                &&& registry.store.pending_owner.spec_is_zero()
                &&& registry.store.merchant_count == 0
                &&& registry.merchants@.len() == 0
                &&& event == (MembersInitialized { owner: payer, bump: registry.store.bump })
                &&& derived_view(derived) == derived_identity(program_id@, MEMBERS_SEED@) ==> registry.wf()
            },
            Err(e) => e == MembersError::InvalidProgramId && derived is None,
        },
{
    match derived {
        Some((_, bump)) => {
            let store = MembersStore {
                owner: payer,
                custodian: Identity::zero(),
                merchant_count: 0,
                pending_owner: Identity::zero(),
                bump,
            };
            let registry = RoleRegistry { program_id, store, merchants: Vec::new() };
            Ok((registry, MembersInitialized { owner: payer, bump }))
        },
        None => Err(MembersError::InvalidProgramId),
    }
}

/// Creates the role registry of the component `program_id`, owned by `payer`:
/// no custodian, no pending owner, no merchant. It fails with
/// `InvalidProgramId` exactly where `program_id` derives no address for the
/// singleton.
pub fn initialize(program_id: Identity, payer: Identity) -> (r: Result<
    (RoleRegistry, MembersInitialized),
    MembersError,
>)
    ensures
        match r {
            Ok((registry, event)) => {
                &&& derived_identity(program_id@, MEMBERS_SEED@) matches Some((_, bump))
                    && registry.store.bump == bump
                &&& registry.program_id == program_id
                &&& registry.store.owner == payer
                &&& registry.store.custodian.spec_is_zero()
                &&& registry.store.pending_owner.spec_is_zero()
                &&& registry.store.merchant_count == 0
                &&& registry.merchants@.len() == 0
                &&& registry.wf()
                &&& event == (MembersInitialized { owner: payer, bump: registry.store.bump })
            },
            Err(e) => e == MembersError::InvalidProgramId && derived_identity(
                program_id@,
                MEMBERS_SEED@,
            ) is None,
        },
{
    let derived = derive_identity(&program_id, MEMBERS_SEED);
    initialize_derived(program_id, payer, derived)
}

} // verus!
