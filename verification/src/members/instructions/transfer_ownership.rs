use vstd::prelude::*;
use crate::identity::Identity;
use crate::members::errors::MembersError;
use crate::members::events::OwnershipTransferStarted;
use crate::members::state::MembersStore;
use crate::members::RoleRegistry;

verus! {

/// The arguments of `transfer_ownership`.
#[derive(Clone, Copy, Debug, PartialEq, Eq)]
pub struct TransferOwnershipParams {
    pub new_owner: Identity,
}

/// What `transfer_ownership` answers to `owner` on `store`.
pub open spec fn transfer_ownership_check(
    store: MembersStore,
    owner: Identity,
    params: TransferOwnershipParams,
) -> Result<(), MembersError> {
    if !store.spec_is_owner(owner) {
        Err(MembersError::Unauthorized)
    } else if params.new_owner.spec_is_zero() {
        Err(MembersError::InvalidOwner)
    } else {
        Ok(())
    }
}

/// Starts a handoff of the registry to `params.new_owner`. Only the owner
/// may, and the zero identity is refused. The owner stays the owner until the
/// new one claims. A rejected call changes nothing.
pub fn transfer_ownership(registry: &mut RoleRegistry, owner: Identity, params: TransferOwnershipParams) -> (r:
    Result<OwnershipTransferStarted, MembersError>)
    ensures
        match r {
            Ok(event) => {
                &&& transfer_ownership_check(old(registry).store, owner, params) is Ok
                &&& *final(registry) == (RoleRegistry {
                    store: MembersStore { pending_owner: params.new_owner, ..old(registry).store },
                    ..*old(registry)
                })
                &&& event == (OwnershipTransferStarted {
                    previous_owner: old(registry).store.owner,
                    new_owner: params.new_owner,
                })
            },
            Err(e) => {
                &&& transfer_ownership_check(old(registry).store, owner, params) == Err::<(), _>(e)
                &&& *final(registry) == *old(registry)
            },
        },
        old(registry).wf() ==> final(registry).wf(),
{
    if !registry.store.is_owner(&owner) {
        return Err(MembersError::Unauthorized);
    }
    if params.new_owner.is_zero() {
        return Err(MembersError::InvalidOwner);
    }
    registry.store.pending_owner = params.new_owner;
    Ok(OwnershipTransferStarted { previous_owner: registry.store.owner, new_owner: params.new_owner })
}

} // verus!
