use vstd::prelude::*;
use crate::identity::Identity;

verus! {

/// The custodian was named.
#[derive(Clone, Copy, Debug, PartialEq, Eq)]
pub struct CustodianSet {
    pub custodian: Identity,
}

/// A merchant was registered.
#[derive(Clone, Copy, Debug, PartialEq, Eq)]
pub struct MerchantAdd {
    pub merchant: Identity,
}

/// A merchant was removed.
#[derive(Clone, Copy, Debug, PartialEq, Eq)]
pub struct MerchantRemove {
    pub merchant: Identity,
}

/// The role registry was created.
#[derive(Clone, Copy, Debug, PartialEq, Eq)]
pub struct MembersInitialized {
    pub owner: Identity,
    pub bump: u8,
}

/// A handoff of the ownership was started.
#[derive(Clone, Copy, Debug, PartialEq, Eq)]
pub struct OwnershipTransferStarted {
    pub previous_owner: Identity,
    pub new_owner: Identity,
}

/// A handoff of the ownership was completed.
#[derive(Clone, Copy, Debug, PartialEq, Eq)]
pub struct OwnershipTransferred {
    pub previous_owner: Identity,
    pub new_owner: Identity,
}

/// The capacity for merchants was changed.
#[derive(Clone, Copy, Debug, PartialEq, Eq)]
pub struct MerchantsResized {
    pub new_capacity: u16,
}

} // verus!
