use vstd::prelude::*;
use crate::controller::errors::CustomError;
use crate::controller::events::FactorySet;
use crate::controller::state::ControllerStore;
use crate::controller::AuthorityHub;
use crate::identity::Identity;

verus! {

/// The arguments of `set_factory`.
#[derive(Clone, Copy, Debug, PartialEq, Eq)]
pub struct SetFactoryParams {
    pub factory: Identity,
}

/// What `set_factory` answers to `owner` on `store`.
pub open spec fn set_factory_check(store: ControllerStore, owner: Identity, params: SetFactoryParams) -> Result<(), CustomError> {
    if !store.spec_is_owner(owner) {
        Err(CustomError::Unauthorized)
    } else if params.factory.spec_is_zero() {
        Err(CustomError::InvalidFactoryAddress)
    } else {
        Ok(())
    }
}

/// Names the hub's delegate: the component whose derived identity may call
/// `mint`. Only the owner may, and the zero identity is refused. A rejected
/// call changes nothing.
pub fn set_factory(hub: &mut AuthorityHub, owner: Identity, params: SetFactoryParams) -> (r: Result<FactorySet, CustomError>)
    ensures
        match r {
            Ok(event) => {
                &&& set_factory_check(old(hub).store, owner, params) is Ok
                &&& *final(hub) == (AuthorityHub {
                    store: ControllerStore { factory: params.factory, ..old(hub).store },
                    ..*old(hub)
                })
                &&& event == (FactorySet { factory: params.factory })
            },
            Err(e) => {
                &&& set_factory_check(old(hub).store, owner, params) == Err::<(), _>(e)
                &&& *final(hub) == *old(hub)
            },
        },
        old(hub).wf() ==> final(hub).wf(),
{
    if !hub.store.is_owner(&owner) {
        return Err(CustomError::Unauthorized);
    }
    if params.factory.is_zero() {
        return Err(CustomError::InvalidFactoryAddress);
    }
    hub.store.factory = params.factory;
    Ok(FactorySet { factory: params.factory })
}

} // verus!
