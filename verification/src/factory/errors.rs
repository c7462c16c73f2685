use vstd::prelude::*;
use crate::controller::errors::CustomError;
use crate::ledger::LedgerError;

verus! {

/// The reasons for which the request engine rejects a call.
#[derive(Clone, Copy, Debug, PartialEq, Eq, Structural)]
pub enum FactoryError {
    /// Unauthorized.
    Unauthorized,
    /// Invalid BTC deposit address.
    InvalidBtcAddress,
    /// Caller is not a merchant.
    NotMerchant,
    /// Caller is not a custodian.
    NotCustodian,
    /// Wrong BTC deposit address.
    WrongBtcDepositAddress,
    /// Request hash cannot be zero.
    ZeroRequestHash,
    /// No such request hash.
    InvalidRequestHash,
    /// Nonce out of range.
    InvalidNonce,
    /// Request is not pending.
    NotPendingRequest,
    /// Mismatch request hash.
    MismatchRequestHash,
    /// Cancel sender is not the request initiator.
    NotRequestInitiator,
    /// Invalid factory address.
    InvalidFactoryAddress,
    /// Invalid request type.
    InvalidRequestType,
    /// Invalid members program.
    InvalidMembersProgram,
    /// Invalid to address.
    InvalidToAddress,
    /// Invalid token mint.
    InvalidTokenMint,
    /// Invalid controller store.
    InvalidControllerStore,
    /// Invalid token program.
    InvalidTokenProgram,
    /// Invalid token account owner.
    InvalidTokenAccountOwner,
    /// Invalid members store.
    InvalidMembersStore,
    /// Invalid merchant.
    InvalidMerchant,
    /// Invalid amount.
    InvalidAmount,
    /// Invalid btc deposit address.
    InvalidBtcDepositAddress,
    /// The address contains invalid (non-ascii) characters.
    InvalidAddressCharacters,
    /// The transaction contains invalid (non-ascii) characters.
    InvalidTransactionCharacters,
    /// The transaction length is invalid (not 64 characters).
    InvalidTransactionLength,
    /// The authority hub refused the mint; its error is handed on unchanged.
    Controller(CustomError),
    /// The asset ledger refused the call; its error is handed on unchanged.
    Ledger(LedgerError),
}

} // verus!
