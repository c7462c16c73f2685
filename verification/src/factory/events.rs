use vstd::prelude::*;
use crate::identity::Identity;

verus! {

/// The custodian set a merchant's deposit address.
#[derive(Clone, Debug, PartialEq, Eq)]
pub struct CustodianBtcDepositAddressSet {
    pub merchant: Identity,
    pub custodian: Identity,
    pub btc_deposit_address: String,
}

/// A merchant set its redemption address.
#[derive(Clone, Debug, PartialEq, Eq)]
pub struct MerchantBtcDepositAddressSet {
    pub merchant: Identity,
    pub btc_deposit_address: String,
}

/// A mint request was opened.
#[derive(Clone, Debug, PartialEq, Eq)]
pub struct MintRequestAdd {
    pub nonce: u64,
    pub requester: Identity,
    pub amount: u64,
    pub btc_deposit_address: String,
    pub btc_txid: String,
    pub timestamp: i64,
    pub request_hash: [u8; 32],
}

/// A mint request was canceled by its requester.
#[derive(Clone, Copy, Debug, PartialEq, Eq)]
pub struct MintRequestCancel {
    pub nonce: u64,
    pub requester: Identity,
    pub request_hash: [u8; 32],
}

/// A mint request was approved, and its amount minted.
#[derive(Clone, Debug, PartialEq, Eq)]
pub struct MintConfirmed {
    pub nonce: u64,
    pub requester: Identity,
    pub amount: u64,
    pub btc_deposit_address: String,
    pub btc_txid: String,
    pub timestamp: i64,
    pub request_hash: [u8; 32],
}

/// A mint request was rejected.
#[derive(Clone, Debug, PartialEq, Eq)]
pub struct MintRejected {
    pub nonce: u64,
    pub requester: Identity,
    pub amount: u64,
    pub btc_deposit_address: String,
    pub btc_txid: String,
    pub timestamp: i64,
    pub request_hash: [u8; 32],
}

/// An amount was burned, and a burn request opened for it.
#[derive(Clone, Debug, PartialEq, Eq)]
pub struct Burned {
    pub nonce: u64,
    pub requester: Identity,
    pub amount: u64,
    pub btc_deposit_address: String,
    pub timestamp: i64,
    pub request_hash: [u8; 32],
}

/// A burn request was approved with the id of its payout.
#[derive(Clone, Debug, PartialEq, Eq)]
pub struct BurnConfirmed {
    pub nonce: u64,
    pub requester: Identity,
    pub amount: u64,
    pub btc_deposit_address: String,
    pub btc_txid: String,
    pub timestamp: i64,
    pub request_hash: [u8; 32],
}

} // verus!
