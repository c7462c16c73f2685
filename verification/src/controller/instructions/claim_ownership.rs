use vstd::prelude::*;
use crate::controller::errors::CustomError;
use crate::controller::events::OwnershipTransferred;
use crate::controller::state::ControllerStore;
use crate::controller::AuthorityHub;
use crate::identity::Identity;

verus! {

/// What `claim_ownership` answers to `pending_owner` on `store`.
pub open spec fn claim_ownership_check(store: ControllerStore, pending_owner: Identity) -> Result<(), CustomError> {
    if store.pending_owner.spec_is_zero() || store.pending_owner != pending_owner {
        Err(CustomError::InvalidPendingOwner)
    } else {
        Ok(())
    }
}

/// Completes a handoff of the hub: the caller becomes the owner and no
/// handoff is pending any more. Only the identity that the handoff names may
/// claim, and with no handoff pending nobody may. A rejected call changes
/// nothing.
pub fn claim_ownership(hub: &mut AuthorityHub, pending_owner: Identity) -> (r: Result<
    OwnershipTransferred,
    CustomError,
>)
    ensures
        match r {
            Ok(event) => {
                &&& claim_ownership_check(old(hub).store, pending_owner) is Ok
                &&& final(hub).store.owner == pending_owner
                &&& final(hub).store.pending_owner.spec_is_zero()
                &&& final(hub).store.bump == old(hub).store.bump
                &&& final(hub).store.token_mint == old(hub).store.token_mint
                &&& final(hub).store.members == old(hub).store.members
                &&& final(hub).store.factory == old(hub).store.factory
                &&& final(hub).store.pending_mint_authority == old(hub).store.pending_mint_authority
                &&& final(hub).program_id == old(hub).program_id
                &&& final(hub).authority == old(hub).authority
                &&& event == (OwnershipTransferred {
                    previous_owner: old(hub).store.owner,
                    new_owner: pending_owner,
                })
            },
            Err(e) => {
                &&& claim_ownership_check(old(hub).store, pending_owner) == Err::<(), _>(e)
                &&& *final(hub) == *old(hub)
            },
        },
        old(hub).wf() ==> final(hub).wf(),
{
    if hub.store.pending_owner.is_zero() || !hub.store.pending_owner.same(&pending_owner) {
        return Err(CustomError::InvalidPendingOwner);
    }
    let previous_owner = hub.store.owner;
    hub.store.owner = pending_owner;
    hub.store.pending_owner = Identity::zero();
    Ok(OwnershipTransferred { previous_owner, new_owner: pending_owner })
}

} // verus!
