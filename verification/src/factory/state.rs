use vstd::prelude::*;
use vstd::bytes::{spec_u64_to_le_bytes, u64_to_le_bytes};
use vstd::utf8::encode_utf8;
use crate::digest::{keccak256, keccak_hashv};
use crate::identity::Identity;

verus! {

/// Longest BTC address, in bytes, that an address record or a request holds.
pub const MAX_BTC_ADDRESS_BYTES: usize = 100;

/// The request engine's singleton: the two nonce counters and the identity of
/// the authority hub that the engine mints through.
#[derive(Clone, Copy, Debug, PartialEq, Eq)]
pub struct FactoryStore {
    pub mint_request_counter: u64,
    pub burn_request_counter: u64,
    pub controller: Identity,
    pub bump: u8,
}

/// The deposit address that the custodian attested for a merchant's mints.
#[derive(Clone, Debug, PartialEq, Eq)]
pub struct CustodianBtcDepositAddress {
    pub merchant: Identity,
    pub btc_address: String,
    pub bump: u8,
}

/// The redemption address that a merchant registered for its own burns.
#[derive(Clone, Debug, PartialEq, Eq)]
pub struct MerchantBtcDepositAddress {
    pub merchant: Identity,
    pub btc_address: String,
    pub bump: u8,
}

/// The kind of a request.
#[derive(Clone, Copy, Debug, PartialEq, Eq, Structural)]
pub enum RequestType {
    Mint,
    Burn,
}

/// The status of a request. It starts as `Pending`; the others are final.
#[derive(Clone, Copy, Debug, PartialEq, Eq, Structural)]
pub enum RequestStatus {
    Pending,
    Canceled,
    Approved,
    Rejected,
}

/// One mint or burn request.
#[derive(Clone, Debug, PartialEq, Eq)]
pub struct RequestAccount {
    pub request_type: RequestType,
    pub requester: Identity,
    pub amount: u64,
    pub btc_deposit_address: String,
    pub btc_txid: String,
    pub nonce: u64,
    pub timestamp: i64,
    pub status: RequestStatus,
    pub hash: [u8; 32],
    pub bump: u8,
}

/// The UTF-8 bytes of a string.
pub open spec fn string_bytes(s: Seq<char>) -> Seq<u8> {
    encode_utf8(s)
}

/// The eight little-endian bytes of a signed 64-bit number, in two's
/// complement.
pub open spec fn i64_le_bytes(x: i64) -> Seq<u8> {
    spec_u64_to_le_bytes(x as u64)
}

/// The bytes that a request's integrity hash commits to: requester, amount,
/// deposit address, transaction id, nonce and timestamp, in this order.
pub open spec fn request_preimage(
    requester: Seq<u8>,
    amount: u64,
    btc_deposit_address: Seq<char>,
    btc_txid: Seq<char>,
    nonce: u64,
    timestamp: i64,
) -> Seq<u8> {
    requester + spec_u64_to_le_bytes(amount) + string_bytes(btc_deposit_address) + string_bytes(
        btc_txid,
    ) + spec_u64_to_le_bytes(nonce) + i64_le_bytes(timestamp)
}

/// The integrity hash of a request with the given terms.
pub open spec fn request_hash(
    requester: Seq<u8>,
    amount: u64,
    btc_deposit_address: Seq<char>,
    btc_txid: Seq<char>,
    nonce: u64,
    timestamp: i64,
) -> Seq<u8> {
    keccak256(request_preimage(requester, amount, btc_deposit_address, btc_txid, nonce, timestamp))
}

impl RequestAccount {
    /// The hash of the request's fields as they are stored now.
    pub open spec fn spec_calculate_hash(&self) -> Seq<u8> {
        request_hash(
            self.requester@,
            self.amount,
            self.btc_deposit_address@,
            self.btc_txid@,
            self.nonce,
            self.timestamp,
        )
    }

    /// The transaction id that the request was created with. A burn request is
    /// created without one, and its confirmation writes the payout's id.
    pub open spec fn created_txid(&self) -> Seq<char> {
        if self.request_type == RequestType::Burn {
            Seq::<char>::empty()
        } else {
            self.btc_txid@
        }
    }

    /// The hash of the terms that the request was created with.
    pub open spec fn committed_hash(&self) -> Seq<u8> {
        request_hash(
            self.requester@,
            self.amount,
            self.btc_deposit_address@,
            self.created_txid(),
            self.nonce,
            self.timestamp,
        )
    }

    /// The stored hash commits to the terms of creation, the deposit address
    /// fits its field, and a burn request is either pending without a transaction id
    /// or approved.
    pub open spec fn wf(&self) -> bool {
        &&& self.hash@ == self.committed_hash()
        &&& string_bytes(self.btc_deposit_address@).len() <= MAX_BTC_ADDRESS_BYTES
        &&& self.request_type == RequestType::Burn ==> {
            ||| self.status == RequestStatus::Pending && self.btc_txid@.len() == 0
            ||| self.status == RequestStatus::Approved
        }
    }

    /// Computes the integrity hash of the request's fields as they are
    /// stored now: the Keccak-256 digest of requester, amount, deposit
    /// address, transaction id, nonce and timestamp, the numbers in
    /// little-endian bytes.
    pub fn calculate_hash(&self) -> (hash: [u8; 32])
        ensures
            hash@ == self.spec_calculate_hash(),
    {
        let mut data: Vec<u8> = Vec::new();
        data.extend_from_slice(self.requester.bytes.as_slice());
        let amount = u64_to_le_bytes(self.amount);
        data.extend_from_slice(amount.as_slice());
        data.extend_from_slice(self.btc_deposit_address.as_str().as_bytes());
        data.extend_from_slice(self.btc_txid.as_str().as_bytes());
        let nonce = u64_to_le_bytes(self.nonce);
        data.extend_from_slice(nonce.as_slice());
        let timestamp = u64_to_le_bytes(self.timestamp as u64);
        data.extend_from_slice(timestamp.as_slice());
        assert(data@ =~= request_preimage(
            self.requester@,
            self.amount,
            self.btc_deposit_address@,
            self.btc_txid@,
            self.nonce,
            self.timestamp,
        ));
        keccak_hashv(&data)
    }
}

} // verus!
