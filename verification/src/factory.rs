use vstd::prelude::*;
use vstd::bytes::spec_u64_to_le_bytes;
use crate::controller::AuthorityHub;
use crate::derivation::{record_address, Capability};
use crate::factory::errors::FactoryError;
use crate::factory::state::{
    string_bytes, CustodianBtcDepositAddress, FactoryStore, MerchantBtcDepositAddress,
    RequestAccount, RequestStatus, RequestType, MAX_BTC_ADDRESS_BYTES,
};
use crate::identity::Identity;
use crate::members::RoleRegistry;

pub mod errors;
pub mod events;
pub mod instructions;
pub mod state;
pub mod theorems;

verus! {

/// Label under which the engine derives the identity that it calls the hub's
/// `mint` with.
pub const FACTORY_SEED: &'static str = "factory";

/// Label of the deposit addresses that the custodian sets.
pub const CUSTODIAN_BTC_ADDRESS_SEED: &'static str = "custodian_btc_address";

/// Label of the redemption addresses that the merchants set.
pub const MERCHANT_BTC_ADDRESS_SEED: &'static str = "merchant_btc_address";

/// Label of the mint requests.
pub const MINT_REQUEST_SEED: &'static str = "mint_request";

/// Label of the burn requests.
pub const BURN_REQUEST_SEED: &'static str = "burn_request";

/// The request engine: its own identity, its singleton, the capability that
/// it derived for itself, the mint and the burn requests, each at the
/// position of its nonce, and the address records of the merchants.
#[derive(Debug)]
pub struct RequestEngine {
    pub program_id: Identity,
    pub store: FactoryStore,
    pub signer: Capability,
    pub mint_requests: Vec<RequestAccount>,
    pub burn_requests: Vec<RequestAccount>,
    pub custodian_btc_addresses: Vec<CustodianBtcDepositAddress>,
    pub merchant_btc_addresses: Vec<MerchantBtcDepositAddress>,
}

/// An address that a record may hold: not empty, and no longer than the
/// record's field.
pub open spec fn valid_btc_address(address: Seq<char>) -> bool {
    address.len() > 0 && string_bytes(address).len() <= MAX_BTC_ADDRESS_BYTES
}

/// `i` is the first position at which `keys` holds `key`.
pub open spec fn is_first_position(keys: Seq<Identity>, key: Identity, i: int) -> bool {
    &&& 0 <= i < keys.len()
    &&& keys[i] == key
    &&& forall|j: int| 0 <= j < i ==> keys[j] != key
}

/// The first position at which `keys` holds `key`, if it holds it at all.
pub open spec fn first_position(keys: Seq<Identity>, key: Identity) -> Option<int> {
    if exists|i: int| is_first_position(keys, key, i) {
        Some(choose|i: int| is_first_position(keys, key, i))
    } else {
        None
    }
}

/// The merchants of the custodian-set records, in the records' order.
pub open spec fn custodian_record_keys(records: Seq<CustodianBtcDepositAddress>) -> Seq<Identity> {
    Seq::new(records.len(), |i: int| records[i].merchant)
}

/// The merchants of the merchant-set records, in the records' order.
pub open spec fn merchant_record_keys(records: Seq<MerchantBtcDepositAddress>) -> Seq<Identity> {
    Seq::new(records.len(), |i: int| records[i].merchant)
}

/// The first position of a key is the only first position of it.
pub proof fn lemma_first_position(keys: Seq<Identity>, key: Identity, i: int)
    requires
        is_first_position(keys, key, i),
    ensures
        first_position(keys, key) == Some(i),
{
    let c = choose|c: int| is_first_position(keys, key, c);
    assert(is_first_position(keys, key, c));
    if c < i {
        assert(keys[c] != key);
    } else if i < c {
        assert(keys[i] != key);
    }
}

/// A sequence that holds a key holds it at a first position.
pub proof fn lemma_least_position(keys: Seq<Identity>, key: Identity, j: int)
    requires
        0 <= j < keys.len(),
        keys[j] == key,
    ensures
        first_position(keys, key) is Some,
    decreases j,
{
    if exists|k: int| 0 <= k < j && keys[k] == key {
        let k = choose|k: int| 0 <= k < j && keys[k] == key;
        lemma_least_position(keys, key, k);
    } else {
        assert(is_first_position(keys, key, j));
    }
}

/// The requests of one kind are in order: the request at position `i` is of
/// that kind, has the nonce `i`, is well formed and carries the bump seed of
/// its derived address.
pub open spec fn requests_wf(
    program_id: Identity,
    label: Seq<char>,
    kind: RequestType,
    requests: Seq<RequestAccount>,
) -> bool {
    forall|i: int|
        0 <= i < requests.len() ==> {
            let request = #[trigger] requests[i];
            &&& request.request_type == kind
            &&& request.nonce == i
            &&& request.wf()
            &&& record_address(program_id@, label, spec_u64_to_le_bytes(i as u64)) matches Some((_, bump))
                && bump == request.bump
        }
}

/// `later` is the request `earlier` at a later time: it has the terms that
/// `earlier` was created with, and where `earlier` was settled, it is
/// `earlier`.
pub open spec fn request_kept(earlier: RequestAccount, later: RequestAccount) -> bool {
    &&& later.request_type == earlier.request_type
    &&& later.requester == earlier.requester
    &&& later.amount == earlier.amount
    &&& later.btc_deposit_address@ == earlier.btc_deposit_address@
    &&& later.created_txid() == earlier.created_txid()
    &&& later.nonce == earlier.nonce
    &&& later.timestamp == earlier.timestamp
    &&& later.hash@ == earlier.hash@
    &&& later.bump == earlier.bump
    &&& earlier.status != RequestStatus::Pending ==> later == earlier
}

/// `later` holds each request of `earlier` at its place.
pub open spec fn requests_kept(earlier: Seq<RequestAccount>, later: Seq<RequestAccount>) -> bool {
    &&& earlier.len() <= later.len()
    &&& forall|n: int| 0 <= n < earlier.len() ==> request_kept(#[trigger] earlier[n], later[n])
}

/// `later` is the engine `earlier` at a later time: no counter has fallen,
/// and each request of `earlier` is kept.
pub open spec fn history_kept(earlier: RequestEngine, later: RequestEngine) -> bool {
    &&& earlier.store.mint_request_counter <= later.store.mint_request_counter
    &&& earlier.store.burn_request_counter <= later.store.burn_request_counter
    &&& requests_kept(earlier.mint_requests@, later.mint_requests@)
    &&& requests_kept(earlier.burn_requests@, later.burn_requests@)
}

/// The engine is linked to `hub`, and `hub` to `registry`. A link that was
/// never set leads nowhere.
pub open spec fn collaborators_check(engine: RequestEngine, hub: AuthorityHub, registry: RoleRegistry) -> Result<
    (),
    FactoryError,
> {
    if engine.store.controller.spec_is_zero() || engine.store.controller != hub.program_id {
        Err(FactoryError::InvalidControllerStore)
    } else if hub.store.members.spec_is_zero() || hub.store.members != registry.program_id {
        Err(FactoryError::InvalidMembersStore)
    } else {
        Ok(())
    }
}

/// What a call that acts on the pending request of kind `kind` at `nonce`
/// finds there, before the caller and the hash are looked at.
pub open spec fn pending_request_check(requests: Seq<RequestAccount>, kind: RequestType, nonce: u64) -> Result<
    (),
    FactoryError,
> {
    if nonce >= requests.len() {
        Err(FactoryError::InvalidNonce)
    } else if requests[nonce as int].request_type != kind {
        Err(FactoryError::InvalidRequestType)
    } else if requests[nonce as int].nonce != nonce {
        Err(FactoryError::InvalidNonce)
    } else if requests[nonce as int].status != RequestStatus::Pending {
        Err(FactoryError::NotPendingRequest)
    } else {
        Ok(())
    }
}

/// Checks that the engine is linked to `hub`, and `hub` to `registry`.
pub fn check_collaborators(engine: &RequestEngine, hub: &AuthorityHub, registry: &RoleRegistry) -> (r: Result<
    (),
    FactoryError,
>)
    ensures
        r == collaborators_check(*engine, *hub, *registry),
{
    if engine.store.controller.is_zero() || !engine.store.controller.same(&hub.program_id) {
        return Err(FactoryError::InvalidControllerStore);
    }
    if hub.store.members.is_zero() || !hub.store.members.same(&registry.program_id) {
        return Err(FactoryError::InvalidMembersStore);
    }
    Ok(())
}

/// Looks up the pending request of kind `kind` at `nonce` and answers with its
/// position, which is the nonce.
pub fn check_pending_request(requests: &Vec<RequestAccount>, kind: RequestType, nonce: u64) -> (r: Result<
    usize,
    FactoryError,
>)
    ensures
        match r {
            Ok(i) => pending_request_check(requests@, kind, nonce) is Ok && i == nonce,
            Err(e) => pending_request_check(requests@, kind, nonce) == Err::<(), _>(e),
        },
{
    if nonce >= requests.len() as u64 {
        return Err(FactoryError::InvalidNonce);
    }
    let i = nonce as usize;
    if requests[i].request_type != kind {
        return Err(FactoryError::InvalidRequestType);
    }
    if requests[i].nonce != nonce {
        return Err(FactoryError::InvalidNonce);
    }
    if requests[i].status != RequestStatus::Pending {
        return Err(FactoryError::NotPendingRequest);
    }
    Ok(i)
}

impl RequestEngine {
    /// The engine's capability is the one that the engine derives under
    /// `FACTORY_SEED`, the counters count the requests, the requests are in
    /// order, and each merchant has at most one address record of each kind,
    /// which holds a valid address and the bump seed of its derived address.
    pub open spec fn wf(&self) -> bool {
        &&& self.signer.spec_deriver() == self.program_id
        &&& self.signer.spec_label() == FACTORY_SEED@
        &&& self.signer.spec_bump() == self.store.bump
        &&& self.mint_requests@.len() == self.store.mint_request_counter
        &&& self.burn_requests@.len() == self.store.burn_request_counter
        &&& requests_wf(self.program_id, MINT_REQUEST_SEED@, RequestType::Mint, self.mint_requests@)
        &&& requests_wf(self.program_id, BURN_REQUEST_SEED@, RequestType::Burn, self.burn_requests@)
        &&& forall|i: int|
            0 <= i < self.custodian_btc_addresses@.len() ==> {
                let record = #[trigger] self.custodian_btc_addresses@[i];
                &&& valid_btc_address(record.btc_address@)
                &&& is_first_position(custodian_record_keys(self.custodian_btc_addresses@), record.merchant, i)
                &&& record_address(self.program_id@, CUSTODIAN_BTC_ADDRESS_SEED@, record.merchant@)
                    matches Some((_, bump)) && bump == record.bump
            }
        &&& forall|i: int|
            0 <= i < self.merchant_btc_addresses@.len() ==> {
                let record = #[trigger] self.merchant_btc_addresses@[i];
                &&& valid_btc_address(record.btc_address@)
                &&& is_first_position(merchant_record_keys(self.merchant_btc_addresses@), record.merchant, i)
                &&& record_address(self.program_id@, MERCHANT_BTC_ADDRESS_SEED@, record.merchant@)
                    matches Some((_, bump)) && bump == record.bump
            }
    }

    /// The position of the record that the custodian set for `merchant`.
    pub fn find_custodian_btc_address(&self, merchant: &Identity) -> (r: Option<usize>)
        ensures
            match r {
                Some(i) => first_position(custodian_record_keys(self.custodian_btc_addresses@), *merchant)
                    == Some(i as int) && i < self.custodian_btc_addresses@.len(),
                None => first_position(custodian_record_keys(self.custodian_btc_addresses@), *merchant)
                    is None,
            },
    {
        let ghost keys = custodian_record_keys(self.custodian_btc_addresses@);
        let mut i: usize = 0;
        while i < self.custodian_btc_addresses.len()
            invariant
                i <= self.custodian_btc_addresses@.len(),
                keys == custodian_record_keys(self.custodian_btc_addresses@),
                forall|j: int| 0 <= j < i ==> keys[j] != *merchant,
            decreases self.custodian_btc_addresses@.len() - i,
        {
            if self.custodian_btc_addresses[i].merchant.same(merchant) {
                proof {
                    lemma_first_position(keys, *merchant, i as int);
                }
                return Some(i);
            }
            i = i + 1;
        }
        None
    }

    /// The position of the record that `merchant` set for itself.
    pub fn find_merchant_btc_address(&self, merchant: &Identity) -> (r: Option<usize>)
        ensures
            match r {
                Some(i) => first_position(merchant_record_keys(self.merchant_btc_addresses@), *merchant)
                    == Some(i as int) && i < self.merchant_btc_addresses@.len(),
                None => first_position(merchant_record_keys(self.merchant_btc_addresses@), *merchant)
                    is None,
            },
    {
        let ghost keys = merchant_record_keys(self.merchant_btc_addresses@);
        let mut i: usize = 0;
        while i < self.merchant_btc_addresses.len()
            invariant
                i <= self.merchant_btc_addresses@.len(),
                keys == merchant_record_keys(self.merchant_btc_addresses@),
                forall|j: int| 0 <= j < i ==> keys[j] != *merchant,
            decreases self.merchant_btc_addresses@.len() - i,
        {
            if self.merchant_btc_addresses[i].merchant.same(merchant) {
                proof {
                    lemma_first_position(keys, *merchant, i as int);
                }
                return Some(i);
            }
            i = i + 1;
        }
        None
    }
}

} // verus!
