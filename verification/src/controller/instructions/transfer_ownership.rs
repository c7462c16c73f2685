use vstd::prelude::*;
use crate::controller::errors::CustomError;
use crate::controller::events::OwnershipTransferStarted;
use crate::controller::state::ControllerStore;
use crate::controller::AuthorityHub;
use crate::identity::Identity;

verus! {

/// The arguments of `transfer_ownership`.
#[derive(Clone, Copy, Debug, PartialEq, Eq)]
pub struct TransferOwnershipParams {
    pub new_owner: Identity,
}

/// What `transfer_ownership` answers to `owner` on `store`.
pub open spec fn transfer_ownership_check(store: ControllerStore, owner: Identity, params: TransferOwnershipParams) -> Result<(), CustomError> {
    if !store.spec_is_owner(owner) {
        Err(CustomError::Unauthorized)
    } else if params.new_owner.spec_is_zero() {
        Err(CustomError::InvalidOwner)
    } else {
        Ok(())
    }
}

/// Starts a handoff of the hub to `params.new_owner`. Only the owner may, and
/// the zero identity is refused. The owner stays the owner until the new one
/// claims. A rejected call changes nothing.
pub fn transfer_ownership(hub: &mut AuthorityHub, owner: Identity, params: TransferOwnershipParams) -> (r: Result<OwnershipTransferStarted, CustomError>)
    ensures
        match r {
            Ok(event) => {
                &&& transfer_ownership_check(old(hub).store, owner, params) is Ok
                &&& *final(hub) == (AuthorityHub {
                    store: ControllerStore { pending_owner: params.new_owner, ..old(hub).store },
                    ..*old(hub)
                })
                &&& event == (OwnershipTransferStarted { previous_owner: old(hub).store.owner, new_owner: params.new_owner })
            },
            Err(e) => {
                &&& transfer_ownership_check(old(hub).store, owner, params) == Err::<(), _>(e)
                &&& *final(hub) == *old(hub)
            },
        },
        old(hub).wf() ==> final(hub).wf(),
{
    if !hub.store.is_owner(&owner) {
        return Err(CustomError::Unauthorized);
    }
    if params.new_owner.is_zero() {
        return Err(CustomError::InvalidOwner);
    }
    hub.store.pending_owner = params.new_owner;
    Ok(OwnershipTransferStarted { previous_owner: hub.store.owner, new_owner: params.new_owner })
}

} // verus!
