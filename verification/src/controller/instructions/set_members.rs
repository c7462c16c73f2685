use vstd::prelude::*;
use crate::controller::errors::CustomError;
use crate::controller::events::MembersSet;
use crate::controller::state::ControllerStore;
use crate::controller::AuthorityHub;
use crate::identity::Identity;

verus! {

/// The arguments of `set_members`.
#[derive(Clone, Copy, Debug, PartialEq, Eq)]
pub struct SetMembersParams {
    pub members: Identity,
}

/// What `set_members` answers to `owner` on `store`.
pub open spec fn set_members_check(store: ControllerStore, owner: Identity, params: SetMembersParams) -> Result<(), CustomError> {
    if !store.spec_is_owner(owner) {
        Err(CustomError::Unauthorized)
    } else if params.members.spec_is_zero() {
        Err(CustomError::InvalidMembersAddress)
    } else {
        Ok(())
    }
}

/// Points the hub at its role registry. Only the owner may, and the zero
/// identity is refused. A rejected call changes nothing.
pub fn set_members(hub: &mut AuthorityHub, owner: Identity, params: SetMembersParams) -> (r: Result<MembersSet, CustomError>)
    ensures
        match r {
            Ok(event) => {
                &&& set_members_check(old(hub).store, owner, params) is Ok
                &&& *final(hub) == (AuthorityHub {
                    store: ControllerStore { members: params.members, ..old(hub).store },
                    ..*old(hub)
                })
                &&& event == (MembersSet { members: params.members })
            },
            Err(e) => {
                &&& set_members_check(old(hub).store, owner, params) == Err::<(), _>(e)
                &&& *final(hub) == *old(hub)
            },
        },
        old(hub).wf() ==> final(hub).wf(),
{
    if !hub.store.is_owner(&owner) {
        return Err(CustomError::Unauthorized);
    }
    if params.members.is_zero() {
        return Err(CustomError::InvalidMembersAddress);
    }
    hub.store.members = params.members;
    Ok(MembersSet { members: params.members })
}

} // verus!
