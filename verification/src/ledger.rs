use vstd::prelude::*;
use crate::identity::Identity;

verus! {

/// The code with which the asset ledger refused a call.
#[derive(Clone, Copy, Debug, PartialEq, Eq, Structural)]
pub struct LedgerError {
    pub code: u64,
}

/// A call to the asset ledger that the caller of this library has to make on
/// its behalf.
#[derive(Clone, Copy, Debug, PartialEq, Eq)]
pub enum LedgerInstruction {
    /// Credit `amount` of the asset `mint` to the account of `to`, signed by
    /// the derived identity `authority`, which holds the mint authority.
    MintTo { mint: Identity, to: Identity, amount: u64, authority: Identity },
    /// Debit `amount` of the asset `mint` from the account of `from`, signed
    /// by `from` itself.
    Burn { mint: Identity, from: Identity, amount: u64 },
    /// Hand the mint authority over the asset `mint` from the derived identity
    /// `current_authority` to `new_authority`.
    SetMintAuthority { mint: Identity, current_authority: Identity, new_authority: Identity },
}

} // verus!
