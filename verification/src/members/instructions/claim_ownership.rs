use vstd::prelude::*;
use crate::identity::Identity;
use crate::members::errors::MembersError;
use crate::members::events::OwnershipTransferred;
use crate::members::state::MembersStore;
use crate::members::RoleRegistry;

verus! {

/// What `claim_ownership` answers to `pending_owner` on `store`.
pub open spec fn claim_ownership_check(store: MembersStore, pending_owner: Identity) -> Result<(), MembersError> {
    if store.pending_owner.spec_is_zero() || store.pending_owner != pending_owner {
        Err(MembersError::InvalidPendingOwner)
    } else {
        Ok(())
    }
}

/// Completes a handoff: the caller becomes the owner and no handoff is
/// pending any more. Only the identity that the handoff names may claim, and
/// with no handoff pending nobody may. A rejected call changes nothing.
pub fn claim_ownership(registry: &mut RoleRegistry, pending_owner: Identity) -> (r: Result<
    OwnershipTransferred,
    MembersError,
>)
    ensures
        match r {
            Ok(event) => {
                &&& claim_ownership_check(old(registry).store, pending_owner) is Ok
                &&& final(registry).store.owner == pending_owner
                &&& final(registry).store.pending_owner.spec_is_zero()
                &&& final(registry).store.custodian == old(registry).store.custodian
                &&& final(registry).store.merchant_count == old(registry).store.merchant_count
                &&& final(registry).store.bump == old(registry).store.bump
                &&& final(registry).program_id == old(registry).program_id
                &&& final(registry).merchants == old(registry).merchants
                &&& event == (OwnershipTransferred {
                    previous_owner: old(registry).store.owner,
                    new_owner: pending_owner,
                })
            },
            Err(e) => {
                &&& claim_ownership_check(old(registry).store, pending_owner) == Err::<(), _>(e)
                &&& *final(registry) == *old(registry)
            },
        },
        old(registry).wf() ==> final(registry).wf(),
{
    if registry.store.pending_owner.is_zero() || !registry.store.pending_owner.same(&pending_owner) {
        return Err(MembersError::InvalidPendingOwner);
    }
    let previous_owner = registry.store.owner;
    registry.store.owner = pending_owner;
    registry.store.pending_owner = Identity::zero();
    Ok(OwnershipTransferred { previous_owner, new_owner: pending_owner })
}

} // verus!
