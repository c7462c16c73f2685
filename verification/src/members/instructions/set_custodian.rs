use vstd::prelude::*;
use crate::identity::Identity;
use crate::members::errors::MembersError;
use crate::members::events::CustodianSet;
use crate::members::state::MembersStore;
use crate::members::RoleRegistry;

verus! {

/// The arguments of `set_custodian`.
#[derive(Clone, Copy, Debug, PartialEq, Eq)]
pub struct SetCustodianParams {
    pub custodian: Identity,
}

/// What `set_custodian` answers to `owner` on `store`.
pub open spec fn set_custodian_check(store: MembersStore, owner: Identity, params: SetCustodianParams) -> Result<(), MembersError> {
    if !store.spec_is_owner(owner) {
        Err(MembersError::Unauthorized)
    } else if params.custodian.spec_is_zero() {
        Err(MembersError::InvalidAddress)
    } else {
        Ok(())
    }
}

/// Names the custodian. Only the owner may, and the zero identity is
/// refused. A rejected call changes nothing.
pub fn set_custodian(registry: &mut RoleRegistry, owner: Identity, params: SetCustodianParams) -> (r: Result<
    CustodianSet,
    MembersError,
>)
    ensures
        match r {
            Ok(event) => {
                &&& set_custodian_check(old(registry).store, owner, params) is Ok
                &&& *final(registry) == (RoleRegistry {
                    store: MembersStore { custodian: params.custodian, ..old(registry).store },
                    ..*old(registry)
                })
                &&& event == (CustodianSet { custodian: params.custodian })
            },
            Err(e) => {
                &&& set_custodian_check(old(registry).store, owner, params) == Err::<(), _>(e)
                &&& *final(registry) == *old(registry)
            },
        },
        old(registry).wf() ==> final(registry).wf(),
{
    if !registry.store.is_owner(&owner) {
        return Err(MembersError::Unauthorized);
    }
    if params.custodian.is_zero() {
        return Err(MembersError::InvalidAddress);
    }
    registry.store.custodian = params.custodian;
    Ok(CustodianSet { custodian: params.custodian })
}

} // verus!
