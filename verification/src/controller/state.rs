use vstd::prelude::*;
use crate::identity::Identity;

verus! {

/// The authority hub's singleton. The zero identity stands for "none" in
/// `members`, `factory`, `pending_owner` and `pending_mint_authority`.
#[derive(Clone, Copy, Debug, PartialEq, Eq)]
pub struct ControllerStore {
    pub bump: u8,
    pub token_mint: Identity,
    pub members: Identity,
    pub factory: Identity,
    pub owner: Identity,
    pub pending_owner: Identity,
    pub pending_mint_authority: Identity,
}

impl ControllerStore {
    /// `address` is the owner. The zero identity owns nothing.
    pub open spec fn spec_is_owner(&self, address: Identity) -> bool {
        !address.spec_is_zero() && self.owner == address
    }

    /// Whether `address` is the owner.
    pub fn is_owner(&self, address: &Identity) -> (r: bool)
        ensures
            r == self.spec_is_owner(*address),
    {
        !address.is_zero() && self.owner.same(address)
    }
}

} // verus!
