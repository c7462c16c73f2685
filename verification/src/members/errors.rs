use vstd::prelude::*;

verus! {

/// The reasons for which the role registry rejects a call.
#[derive(Clone, Copy, Debug, PartialEq, Eq, Structural)]
pub enum MembersError {
    /// Unauthorized access
    Unauthorized,
    /// Invalid address
    InvalidAddress,
    /// Too many merchants
    TooManyMerchants,
    /// Merchant already exists
    MerchantAlreadyExists,
    /// Merchant not found
    MerchantNotFound,
    /// Invalid token account address
    InvalidTokenAccount,
    /// Token account not initialized
    UninitializedTokenAccount,
    /// Invalid token mint
    InvalidTokenMint,
    /// Not an associated token account
    NotAssociatedTokenAccount,
    /// Invalid owner address
    InvalidOwner,
    /// No pending owner
    NoPendingOwner,
    /// Invalid pending owner
    InvalidPendingOwner,
    /// Invalid program ID
    InvalidProgramId,
    /// Invalid operation
    InvalidOperation,
}

} // verus!
