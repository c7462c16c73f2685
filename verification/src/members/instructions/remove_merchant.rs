use vstd::prelude::*;
use crate::identity::Identity;
use crate::members::errors::MembersError;
use crate::members::events::MerchantRemove;
use crate::members::state::{MembersStore, MerchantInfo};
use crate::members::RoleRegistry;

verus! {

/// The arguments of `remove_merchant`.
#[derive(Clone, Copy, Debug, PartialEq, Eq)]
pub struct RemoveMerchantParams {
    pub merchant: Identity,
}

/// The merchant count after one merchant less: it stops at zero.
pub open spec fn count_after_remove(count: u16) -> u16 {
    if count > 0 {
        (count - 1) as u16
    } else {
        count
    }
}

/// `i` is the first position at which `merchants` holds a record of
/// `merchant`.
pub open spec fn is_first_record(merchants: Seq<MerchantInfo>, merchant: Identity, i: int) -> bool {
    &&& 0 <= i < merchants.len()
    &&& merchants[i].merchant == merchant
    &&& forall|j: int| 0 <= j < i ==> (#[trigger] merchants[j]).merchant != merchant
}

/// What `remove_merchant` answers to `owner` on `registry`.
pub open spec fn remove_merchant_check(registry: RoleRegistry, owner: Identity, params: RemoveMerchantParams) -> Result<
    (),
    MembersError,
> {
    if !registry.store.spec_is_owner(owner) {
        Err(MembersError::Unauthorized)
    } else if !registry.is_merchant(params.merchant) {
        Err(MembersError::MerchantNotFound)
    } else {
        Ok(())
    }
}

/// Removes a merchant: its record is destroyed, the other records keep their
/// order, and the merchant count falls by one, stopping at zero. Only the
/// owner may, and the merchant must have a record. A rejected call changes
/// nothing.
pub fn remove_merchant(registry: &mut RoleRegistry, owner: Identity, params: RemoveMerchantParams) -> (r: Result<
    MerchantRemove,
    MembersError,
>)
    ensures
        match r {
            Ok(event) => {
                &&& remove_merchant_check(*old(registry), owner, params) is Ok
                &&& exists|i: int|
                    {
                        &&& is_first_record(old(registry).merchants@, params.merchant, i)
                        &&& final(registry).merchants@ == old(registry).merchants@.remove(i)
                    }
                &&& final(registry).store == (MembersStore {
                    merchant_count: count_after_remove(old(registry).store.merchant_count),
                    ..old(registry).store
                })
                &&& final(registry).program_id == old(registry).program_id
                &&& event == (MerchantRemove { merchant: params.merchant })
            },
            Err(e) => {
                &&& remove_merchant_check(*old(registry), owner, params) == Err::<(), _>(e)
                &&& *final(registry) == *old(registry)
            },
        },
        old(registry).wf() ==> final(registry).wf(),
        old(registry).wf() && r is Ok ==> !final(registry).is_merchant(params.merchant),
{
    if !registry.store.is_owner(&owner) {
        return Err(MembersError::Unauthorized);
    }
    let position = match registry.find_merchant(&params.merchant) {
        Some(i) => i,
        None => {
            return Err(MembersError::MerchantNotFound);
        },
    };
    registry.merchants.remove(position);
    assert(is_first_record(old(registry).merchants@, params.merchant, position as int));
    registry.store.merchant_count = registry.store.merchant_count.saturating_sub(1);
    Ok(MerchantRemove { merchant: params.merchant })
}

} // verus!
