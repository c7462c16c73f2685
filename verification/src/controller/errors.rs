use vstd::prelude::*;
use crate::ledger::LedgerError;

verus! {

/// The reasons for which the authority hub rejects a call.
#[derive(Clone, Copy, Debug, PartialEq, Eq, Structural)]
pub enum CustomError {
    /// Invalid token address
    InvalidTokenAddress,
    /// Invalid members address
    InvalidMembersAddress,
    /// Invalid factory address
    InvalidFactoryAddress,
    /// Invalid to address
    InvalidToAddress,
    /// Unauthorized
    Unauthorized,
    /// Invalid owner
    InvalidOwner,
    /// No pending owner
    NoPendingOwner,
    /// Invalid pending owner
    InvalidPendingOwner,
    /// Member check failed
    MemberCheckFailed,
    /// Invalid pending authority
    InvalidPendingAuthority,
    /// Invalid factory program
    InvalidFactoryProgram,
    /// Already initialized
    AlreadyInitialized,
    /// Not initialized
    NotInitialized,
    /// Token account mismatch
    TokenAccountMismatch,
    /// Token mint mismatch
    TokenMintMismatch,
    /// Invalid token account address
    InvalidTokenAccountAddress,
    /// Invalid program ID for PDA ownership
    InvalidProgramId,
    /// The asset ledger refused the call; its error is handed on unchanged.
    Ledger(LedgerError),
}

} // verus!
