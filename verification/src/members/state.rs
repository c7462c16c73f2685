use vstd::prelude::*;
use crate::identity::Identity;

verus! {

/// The role registry's singleton: owner, custodian and the pending owner of a
/// handoff that was started. The zero identity stands for "none".
#[derive(Clone, Copy, Debug, PartialEq, Eq)]
pub struct MembersStore {
    pub owner: Identity,
    pub custodian: Identity,
    pub merchant_count: u16,
    pub pending_owner: Identity,
    pub bump: u8,
}

/// The record of one merchant. A merchant is registered exactly while its
/// record exists.
#[derive(Clone, Copy, Debug, PartialEq, Eq)]
pub struct MerchantInfo {
    pub merchant: Identity,
    pub bump: u8,
}

impl MembersStore {
    /// `address` is the custodian: a custodian is set, and it is `address`.
    pub open spec fn spec_is_custodian(&self, address: Identity) -> bool {
        !address.spec_is_zero() && self.custodian == address
    }

    /// `address` is the owner. The zero identity owns nothing.
    pub open spec fn spec_is_owner(&self, address: Identity) -> bool {
        !address.spec_is_zero() && self.owner == address
    }

    /// Whether `address` is the custodian. Nobody is while none is set.
    pub fn is_custodian(&self, address: &Identity) -> (r: bool)
        ensures
            r == self.spec_is_custodian(*address),
    {
        !address.is_zero() && self.custodian.same(address)
    }

    /// Whether `address` is the owner.
    pub fn is_owner(&self, address: &Identity) -> (r: bool)
        ensures
            r == self.spec_is_owner(*address),
    {
        !address.is_zero() && self.owner.same(address)
    }
}

} // verus!
