use vstd::prelude::*;
use crate::identity::Identity;

verus! {

/// The hub was pointed at its role registry.
#[derive(Clone, Copy, Debug, PartialEq, Eq)]
pub struct MembersSet {
    pub members: Identity,
}

/// The hub's delegate was named.
#[derive(Clone, Copy, Debug, PartialEq, Eq)]
pub struct FactorySet {
    pub factory: Identity,
}

/// A handoff of the ownership was started.
#[derive(Clone, Copy, Debug, PartialEq, Eq)]
pub struct OwnershipTransferStarted {
    pub previous_owner: Identity,
    pub new_owner: Identity,
}

/// A handoff of the ownership was completed.
#[derive(Clone, Copy, Debug, PartialEq, Eq)]
pub struct OwnershipTransferred {
    pub previous_owner: Identity,
    pub new_owner: Identity,
}

/// The authority hub was created.
#[derive(Clone, Copy, Debug, PartialEq, Eq)]
pub struct ControllerInitialized {
    pub token_mint: Identity,
    pub owner: Identity,
}

/// A handoff of the mint authority was started.
#[derive(Clone, Copy, Debug, PartialEq, Eq)]
pub struct MintAuthorityTransferStarted {
    pub token_mint: Identity,
    pub new_authority: Identity,
}

/// A handoff of the mint authority was completed.
#[derive(Clone, Copy, Debug, PartialEq, Eq)]
pub struct MintAuthorityTransferred {
    pub token_mint: Identity,
    pub new_authority: Identity,
}

} // verus!
