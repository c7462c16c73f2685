use vstd::prelude::*;
use vstd::bytes::{spec_u64_to_le_bytes, u64_to_le_bytes};
use crate::controller::AuthorityHub;
use crate::derivation::{derive_record_address, derived_view, record_address};
use crate::digest::digests_equal;
use crate::factory::errors::FactoryError;
use crate::factory::events::{BurnConfirmed, Burned};
use crate::factory::instructions::mint_requests::is_new_request;
use crate::factory::state::{
    FactoryStore, RequestAccount, RequestStatus, RequestType,
};
use crate::factory::{
    history_kept,
    check_collaborators, check_pending_request, collaborators_check, first_position,
    merchant_record_keys, pending_request_check, RequestEngine, BURN_REQUEST_SEED,
};
use crate::identity::Identity;
use crate::ledger::{LedgerError, LedgerInstruction};
use crate::members::RoleRegistry;

verus! {

/// The arguments of a burn.
#[derive(Clone, Copy, Debug, PartialEq, Eq)]
pub struct BurnParams {
    pub amount: u64,
}

/// The address that `merchant` set for its burns, where it set one that is
/// not empty.
pub open spec fn redemption_address(engine: RequestEngine, merchant: Identity) -> Option<Seq<char>> {
    match first_position(merchant_record_keys(engine.merchant_btc_addresses@), merchant) {
        Some(i) => if engine.merchant_btc_addresses@[i].btc_address@.len() > 0 {
            Some(engine.merchant_btc_addresses@[i].btc_address@)
        } else {
            None
        },
        None => None,
    }
}

/// What the engine answers to a burn by `payer` before the ledger is asked,
/// given what the derivation of the new request's address gave: the bump seed
/// of the new request, or the reason for which the call is rejected.
pub open spec fn burn_check_derived(
    engine: RequestEngine,
    hub: AuthorityHub,
    registry: RoleRegistry,
    payer: Identity,
    params: BurnParams,
    derived: Option<(Seq<u8>, u8)>,
) -> Result<u8, FactoryError> {
    match collaborators_check(engine, hub, registry) {
        Err(e) => Err(e),
        Ok(_) => if !registry.is_merchant(payer) {
            Err(FactoryError::NotMerchant)
        } else if redemption_address(engine, payer) is None {
            Err(FactoryError::InvalidBtcAddress)
        } else if params.amount == 0 {
            Err(FactoryError::InvalidAmount)
        } else if engine.store.burn_request_counter == u64::MAX {
            Err(FactoryError::InvalidNonce)
        } else {
            match derived {
                Some((_, bump)) => Ok(bump),
                None => Err(FactoryError::InvalidFactoryAddress),
            }
        },
    }
}

/// What the engine answers to a burn by `payer` before the ledger is asked:
/// the answer of `burn_check_derived` to what the engine derives for the next
/// burn nonce.
pub open spec fn burn_check(
    engine: RequestEngine,
    hub: AuthorityHub,
    registry: RoleRegistry,
    payer: Identity,
    params: BurnParams,
) -> Result<u8, FactoryError> {
    burn_check_derived(
        engine,
        hub,
        registry,
        payer,
        params,
        record_address(
            engine.program_id@,
            BURN_REQUEST_SEED@,
            spec_u64_to_le_bytes(engine.store.burn_request_counter),
        ),
    )
}

/// What `burn_handler_derived` answers to `payer`, given what the ledger
/// answered to the debit and what the derivation gave.
pub open spec fn burn_result_derived(
    engine: RequestEngine,
    hub: AuthorityHub,
    registry: RoleRegistry,
    payer: Identity,
    params: BurnParams,
    burned: Result<(), LedgerError>,
    derived: Option<(Seq<u8>, u8)>,
) -> Result<u8, FactoryError> {
    match burn_check_derived(engine, hub, registry, payer, params, derived) {
        Err(e) => Err(e),
        Ok(bump) => match burned {
            Err(e) => Err(FactoryError::Ledger(e)),
            Ok(_) => Ok(bump),
        },
    }
}

/// What `burn_handler` answers to `payer`, given what the ledger answered to
/// the debit.
pub open spec fn burn_result(
    engine: RequestEngine,
    hub: AuthorityHub,
    registry: RoleRegistry,
    payer: Identity,
    params: BurnParams,
    burned: Result<(), LedgerError>,
) -> Result<u8, FactoryError> {
    burn_result_derived(
        engine,
        hub,
        registry,
        payer,
        params,
        burned,
        record_address(
            engine.program_id@,
            BURN_REQUEST_SEED@,
            spec_u64_to_le_bytes(engine.store.burn_request_counter),
        ),
    )
}

fn burn_checks(
    engine: &RequestEngine,
    hub: &AuthorityHub,
    registry: &RoleRegistry,
    payer: Identity,
    params: BurnParams,
    derived: Option<(Identity, u8)>,
) -> (r: Result<(usize, u8), FactoryError>)
    ensures
        match r {
            Ok((i, bump)) => {
                &&& burn_check_derived(*engine, *hub, *registry, payer, params, derived_view(derived)) == Ok::<_, FactoryError>(bump)
                &&& first_position(merchant_record_keys(engine.merchant_btc_addresses@), payer) == Some(
                    i as int,
                )
                &&& i < engine.merchant_btc_addresses@.len()
                &&& engine.store.burn_request_counter < u64::MAX
            },
            Err(e) => burn_check_derived(*engine, *hub, *registry, payer, params, derived_view(derived)) == Err::<u8, _>(e),
        },
{
    if let Err(e) = check_collaborators(engine, hub, registry) {
        return Err(e);
    }
    if registry.find_merchant(&payer).is_none() {
        return Err(FactoryError::NotMerchant);
    }
    let i = match engine.find_merchant_btc_address(&payer) {
        Some(i) => i,
        None => {
            return Err(FactoryError::InvalidBtcAddress);
        },
    };
    if engine.merchant_btc_addresses[i].btc_address.as_str().is_empty() {
        return Err(FactoryError::InvalidBtcAddress);
    }
    if params.amount == 0 {
        return Err(FactoryError::InvalidAmount);
    }
    if engine.store.burn_request_counter == u64::MAX {
        return Err(FactoryError::InvalidNonce);
    }
    match derived {
        Some((_, bump)) => Ok((i, bump)),
        None => Err(FactoryError::InvalidFactoryAddress),
    }
}

/// The debit that the asset ledger is to make before `burn_handler` records
/// the burn request: `params.amount` from the caller's own account. The
/// caller must be registered with the registry behind the engine's hub and
/// must have set a redemption address, and the amount must not be zero.
/// `derived` is what the derivation of the new request's address gave; a
/// derivation that gave nothing is refused, so that no debit is made for a
/// request that cannot be recorded.
pub fn burn_instruction_derived(
    engine: &RequestEngine,
    hub: &AuthorityHub,
    registry: &RoleRegistry,
    payer: Identity,
    params: BurnParams,
    derived: Option<(Identity, u8)>,
) -> (r: Result<LedgerInstruction, FactoryError>)
    ensures
        match r {
            Ok(instruction) => {
                &&& burn_check_derived(*engine, *hub, *registry, payer, params, derived_view(derived)) is Ok
                &&& instruction == (LedgerInstruction::Burn {
                    mint: hub.store.token_mint,
                    from: payer,
                    amount: params.amount,
                })
            },
            Err(e) => burn_check_derived(*engine, *hub, *registry, payer, params, derived_view(derived)) == Err::<u8, _>(e),
        },
{
    match burn_checks(engine, hub, registry, payer, params, derived) {
        Ok(_) => Ok(LedgerInstruction::Burn { mint: hub.store.token_mint, from: payer, amount: params.amount }),
        Err(e) => Err(e),
    }
}

/// The debit that the asset ledger is to make before `burn_handler` records
/// the burn request: `params.amount` from the caller's own account. The
/// caller must be registered with the registry behind the engine's hub and
/// must have set a redemption address, and the amount must not be zero.
pub fn burn_instruction(
    engine: &RequestEngine,
    hub: &AuthorityHub,
    registry: &RoleRegistry,
    payer: Identity,
    params: BurnParams,
) -> (r: Result<LedgerInstruction, FactoryError>)
    ensures
        match r {
            Ok(instruction) => {
                &&& burn_check(*engine, *hub, *registry, payer, params) is Ok
                &&& instruction == (LedgerInstruction::Burn {
                    mint: hub.store.token_mint,
                    from: payer,
                    amount: params.amount,
                })
            },
            Err(e) => burn_check(*engine, *hub, *registry, payer, params) == Err::<u8, _>(e),
        },
{
    let key = u64_to_le_bytes(engine.store.burn_request_counter);
    let derived = derive_record_address(&engine.program_id, BURN_REQUEST_SEED, key.as_slice());
    burn_instruction_derived(engine, hub, registry, payer, params, derived)
}

/// A merchant burns `params.amount` at the time `timestamp`. `burned` is what
/// the asset ledger answered to the debit of `burn_instruction`. Where that
/// function answers with a debit and the ledger made it, a pending burn
/// request is recorded with the merchant's redemption address as it is now
/// and no transaction id. The request gets the next burn nonce, which is the
/// burn counter's value before the call, and the counter grows by one. Where
/// the ledger refused, its error is handed on and no request is recorded. A
/// rejected call changes nothing.
/// The request carries the bump seed in `derived`; a derivation that gave
/// nothing is refused. The engine stays well formed where `derived` is what
/// the engine derives for the next burn nonce.
pub fn burn_handler_derived(
    engine: &mut RequestEngine,
    hub: &AuthorityHub,
    registry: &RoleRegistry,
    payer: Identity,
    params: BurnParams,
    timestamp: i64,
    burned: Result<(), LedgerError>,
    derived: Option<(Identity, u8)>,
) -> (r: Result<Burned, FactoryError>)
    ensures
        match r {
            Ok(event) => {
                let nonce = old(engine).store.burn_request_counter;
                let before = old(engine).burn_requests@;
                let after = final(engine).burn_requests@;
                &&& burn_result_derived(*old(engine), *hub, *registry, payer, params, burned, derived_view(derived)) matches Ok(bump)
                &&& redemption_address(*old(engine), payer) matches Some(address)
                &&& after.len() == before.len() + 1
                &&& forall|j: int| 0 <= j < before.len() ==> after[j] == before[j]
                &&& is_new_request(
                    after[before.len() as int],
                    RequestType::Burn,
                    payer,
                    params.amount,
                    address,
                    Seq::<char>::empty(),
                    nonce,
                    timestamp,
                    bump,
                )
                &&& final(engine).store == (FactoryStore {
                    burn_request_counter: (nonce + 1) as u64,
                    ..old(engine).store
                })
                &&& final(engine).program_id == old(engine).program_id
                &&& final(engine).signer == old(engine).signer
                &&& final(engine).mint_requests == old(engine).mint_requests
                &&& final(engine).custodian_btc_addresses == old(engine).custodian_btc_addresses
                &&& final(engine).merchant_btc_addresses == old(engine).merchant_btc_addresses
                &&& event.nonce == nonce
                &&& event.requester == payer
                &&& event.amount == params.amount
                &&& event.btc_deposit_address@ == address
                &&& event.timestamp == timestamp
                &&& event.request_hash@ == after[before.len() as int].hash@
            },
            Err(e) => {
                &&& burn_result_derived(*old(engine), *hub, *registry, payer, params, burned, derived_view(derived)) == Err::<u8, _>(e)
                &&& *final(engine) == *old(engine)
            },
        },
        old(engine).wf() && derived_view(derived) == record_address(
            old(engine).program_id@,
            BURN_REQUEST_SEED@,
            spec_u64_to_le_bytes(old(engine).store.burn_request_counter),
        ) ==> final(engine).wf(),
        history_kept(*old(engine), *final(engine)),
{
    let (i, bump) = match burn_checks(engine, hub, registry, payer, params, derived) {
        Ok(found) => found,
        Err(e) => {
            return Err(e);
        },
    };
    if let Err(e) = burned {
        return Err(FactoryError::Ledger(e));
    }
    let nonce = engine.store.burn_request_counter;
    let btc_deposit_address = engine.merchant_btc_addresses[i].btc_address.clone();
    let mut request = RequestAccount {
        request_type: RequestType::Burn,
        requester: payer,
        amount: params.amount,
        btc_deposit_address: btc_deposit_address.clone(),
        btc_txid: String::new(),
        nonce,
        timestamp,
        status: RequestStatus::Pending,
        hash: [0u8;32],
        bump,
    };
    request.hash = request.calculate_hash();
    let event = Burned {
        nonce,
        requester: payer,
        amount: params.amount,
        btc_deposit_address,
        timestamp,
        request_hash: request.hash,
    };
    engine.burn_requests.push(request);
    engine.store.burn_request_counter = nonce + 1;
    Ok(event)
}

/// A merchant burns `params.amount` at the time `timestamp`. `burned` is what
/// the asset ledger answered to the debit of `burn_instruction`. Where that
/// function answers with a debit and the ledger made it, a pending burn
/// request is recorded with the merchant's redemption address as it is now
/// and no transaction id. The request gets the next burn nonce, which is the
/// burn counter's value before the call, and the counter grows by one. Where
/// the ledger refused, its error is handed on and no request is recorded. A
/// rejected call changes nothing.
pub fn burn_handler(
    engine: &mut RequestEngine,
    hub: &AuthorityHub,
    registry: &RoleRegistry,
    payer: Identity,
    params: BurnParams,
    timestamp: i64,
    burned: Result<(), LedgerError>,
) -> (r: Result<Burned, FactoryError>)
    ensures
        match r {
            Ok(event) => {
                let nonce = old(engine).store.burn_request_counter;
                let before = old(engine).burn_requests@;
                let after = final(engine).burn_requests@;
                &&& burn_result(*old(engine), *hub, *registry, payer, params, burned) matches Ok(bump)
                &&& redemption_address(*old(engine), payer) matches Some(address)
                &&& after.len() == before.len() + 1
                &&& forall|j: int| 0 <= j < before.len() ==> after[j] == before[j]
                &&& is_new_request(
                    after[before.len() as int],
                    RequestType::Burn,
                    payer,
                    params.amount,
                    address,
                    Seq::<char>::empty(),
                    nonce,
                    timestamp,
                    bump,
                )
                &&& final(engine).store == (FactoryStore {
                    burn_request_counter: (nonce + 1) as u64,
                    ..old(engine).store
                })
                &&& final(engine).program_id == old(engine).program_id
                &&& final(engine).signer == old(engine).signer
                &&& final(engine).mint_requests == old(engine).mint_requests
                &&& final(engine).custodian_btc_addresses == old(engine).custodian_btc_addresses
                &&& final(engine).merchant_btc_addresses == old(engine).merchant_btc_addresses
                &&& event.nonce == nonce
                &&& event.requester == payer
                &&& event.amount == params.amount
                &&& event.btc_deposit_address@ == address
                &&& event.timestamp == timestamp
                &&& event.request_hash@ == after[before.len() as int].hash@
            },
            Err(e) => {
                &&& burn_result(*old(engine), *hub, *registry, payer, params, burned) == Err::<u8, _>(e)
                &&& *final(engine) == *old(engine)
            },
        },
        old(engine).wf() ==> final(engine).wf(),
        history_kept(*old(engine), *final(engine)),
{
    let key = u64_to_le_bytes(engine.store.burn_request_counter);
    let derived = derive_record_address(&engine.program_id, BURN_REQUEST_SEED, key.as_slice());
    burn_handler_derived(engine, hub, registry, payer, params, timestamp, burned, derived)
}

// ---- Confirm Burn Request ----
/// The arguments of `confirm_burn_request_handler`.
#[derive(Clone, Debug, PartialEq, Eq)]
pub struct ConfirmBurnParams {
    pub nonce: u64,
    pub btc_txid: String,
    pub request_hash: [u8; 32],
}

/// What `confirm_burn_request_handler` answers to `payer`.
pub open spec fn confirm_burn_request_check(
    engine: RequestEngine,
    hub: AuthorityHub,
    registry: RoleRegistry,
    payer: Identity,
    nonce: u64,
    btc_txid: Seq<char>,
    request_hash: Seq<u8>,
) -> Result<(), FactoryError> {
    match pending_request_check(engine.burn_requests@, RequestType::Burn, nonce) {
        Err(e) => Err(e),
        Ok(_) => if engine.burn_requests@[nonce as int].hash@ != request_hash {
            Err(FactoryError::MismatchRequestHash)
        } else {
            match collaborators_check(engine, hub, registry) {
                Err(e) => Err(e),
                Ok(_) => if !registry.store.spec_is_custodian(payer) {
                    Err(FactoryError::NotCustodian)
                } else {
                    Ok(())
                },
            }
        },
    }
}

/// `after` is `before` with the burn request at `nonce` approved and its
/// transaction id set to `btc_txid`, and nothing else changed.
pub open spec fn burn_request_confirmed(
    before: Seq<RequestAccount>,
    after: Seq<RequestAccount>,
    nonce: u64,
    btc_txid: Seq<char>,
) -> bool {
    let was = before[nonce as int];
    let is = after[nonce as int];
    &&& after.len() == before.len()
    &&& forall|j: int| 0 <= j < before.len() && j != nonce ==> after[j] == before[j]
    &&& is.status == RequestStatus::Approved
    &&& is.btc_txid@ == btc_txid
    &&& is.request_type == was.request_type
    &&& is.requester == was.requester
    &&& is.amount == was.amount
    &&& is.btc_deposit_address == was.btc_deposit_address
    &&& is.nonce == was.nonce
    &&& is.timestamp == was.timestamp
    &&& is.hash == was.hash
    &&& is.bump == was.bump
}

/// The custodian confirms a pending burn request with the id of the BTC
/// transaction that paid it out: the id is written to the request, and its
/// status becomes `Approved`. The caller must be the custodian of the
/// registry behind the engine's hub and must present the request's hash. A
/// rejected call changes nothing.
pub fn confirm_burn_request_handler(
    engine: &mut RequestEngine,
    hub: &AuthorityHub,
    registry: &RoleRegistry,
    payer: Identity,
    params: ConfirmBurnParams,
) -> (r: Result<BurnConfirmed, FactoryError>)
    ensures
        match r {
            Ok(event) => {
                let request = old(engine).burn_requests@[params.nonce as int];
                &&& confirm_burn_request_check(
                    *old(engine),
                    *hub,
                    *registry,
                    payer,
                    params.nonce,
                    params.btc_txid@,
                    params.request_hash@,
                ) is Ok
                &&& burn_request_confirmed(
                    old(engine).burn_requests@,
                    final(engine).burn_requests@,
                    params.nonce,
                    params.btc_txid@,
                )
                &&& final(engine).program_id == old(engine).program_id
                &&& final(engine).store == old(engine).store
                &&& final(engine).signer == old(engine).signer
                &&& final(engine).mint_requests == old(engine).mint_requests
                &&& final(engine).custodian_btc_addresses == old(engine).custodian_btc_addresses
                &&& final(engine).merchant_btc_addresses == old(engine).merchant_btc_addresses
                &&& event.nonce == params.nonce
                &&& event.requester == request.requester
                &&& event.amount == request.amount
                &&& event.btc_deposit_address@ == request.btc_deposit_address@
                &&& event.btc_txid@ == params.btc_txid@
                &&& event.timestamp == request.timestamp
                &&& event.request_hash@ == request.hash@
            },
            Err(e) => {
                &&& confirm_burn_request_check(
                    *old(engine),
                    *hub,
                    *registry,
                    payer,
                    params.nonce,
                    params.btc_txid@,
                    params.request_hash@,
                ) == Err::<(), _>(e)
                &&& *final(engine) == *old(engine)
            },
        },
        old(engine).wf() ==> final(engine).wf(),
        history_kept(*old(engine), *final(engine)),
{
    let i = match check_pending_request(&engine.burn_requests, RequestType::Burn, params.nonce) {
        Ok(i) => i,
        Err(e) => {
            return Err(e);
        },
    };
    if !digests_equal(&engine.burn_requests[i].hash, &params.request_hash) {
        return Err(FactoryError::MismatchRequestHash);
    }
    if let Err(e) = check_collaborators(engine, hub, registry) {
        return Err(e);
    }
    if !registry.store.is_custodian(&payer) {
        return Err(FactoryError::NotCustodian);
    }
    engine.burn_requests[i].btc_txid = params.btc_txid.clone();
    engine.burn_requests[i].status = RequestStatus::Approved;
    Ok(
        BurnConfirmed {
            nonce: engine.burn_requests[i].nonce,
            requester: engine.burn_requests[i].requester,
            amount: engine.burn_requests[i].amount,
            btc_deposit_address: engine.burn_requests[i].btc_deposit_address.clone(),
            btc_txid: params.btc_txid,
            timestamp: engine.burn_requests[i].timestamp,
            request_hash: engine.burn_requests[i].hash,
        },
    )
}

} // verus!
