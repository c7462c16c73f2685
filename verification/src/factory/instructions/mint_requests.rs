use vstd::prelude::*;
use vstd::bytes::{spec_u64_to_le_bytes, u64_to_le_bytes};
use crate::controller::instructions::mint::{mint, mint_check};
use crate::controller::AuthorityHub;
use crate::derivation::{derive_record_address, derived_view, record_address};
use crate::digest::digests_equal;
use crate::factory::errors::FactoryError;
use crate::factory::events::{MintConfirmed, MintRejected, MintRequestAdd, MintRequestCancel};
use crate::factory::state::{
    request_hash, FactoryStore, RequestAccount, RequestStatus, RequestType,
};
use crate::factory::{
    history_kept,
    check_collaborators, check_pending_request, collaborators_check, custodian_record_keys,
    first_position, pending_request_check, RequestEngine, MINT_REQUEST_SEED,
};
use crate::identity::Identity;
use crate::ledger::{LedgerError, LedgerInstruction};
use crate::members::RoleRegistry;

verus! {

// ---- Add Mint Request ----
/// The arguments of `add_mint_request_handler`.
#[derive(Clone, Debug, PartialEq, Eq)]
pub struct MintParams {
    pub amount: u64,
    pub btc_txid: String,
    pub btc_deposit_address: String,
}

/// The custodian set `address` as the deposit address of `merchant`.
pub open spec fn is_attested_address(engine: RequestEngine, merchant: Identity, address: Seq<char>) -> bool {
    first_position(custodian_record_keys(engine.custodian_btc_addresses@), merchant) matches Some(i)
        && engine.custodian_btc_addresses@[i].btc_address@ == address
}

/// What `add_mint_request_derived` answers to `payer`, given what the
/// derivation of the new request's address gave: the bump seed of the new
/// request, or the reason for which the call is rejected.
pub open spec fn add_mint_request_check_derived(
    engine: RequestEngine,
    hub: AuthorityHub,
    registry: RoleRegistry,
    payer: Identity,
    btc_txid: Seq<char>,
    btc_deposit_address: Seq<char>,
    derived: Option<(Seq<u8>, u8)>,
) -> Result<u8, FactoryError> {
    match collaborators_check(engine, hub, registry) {
        Err(e) => Err(e),
        Ok(_) => if !registry.is_merchant(payer) {
            Err(FactoryError::NotMerchant)
        } else if !is_attested_address(engine, payer, btc_deposit_address) {
            Err(FactoryError::WrongBtcDepositAddress)
        } else if btc_deposit_address.len() == 0 {
            Err(FactoryError::InvalidBtcAddress)
        } else if engine.store.mint_request_counter == u64::MAX {
            Err(FactoryError::InvalidNonce)
        } else {
            match derived {
                Some((_, bump)) => Ok(bump),
                None => Err(FactoryError::InvalidFactoryAddress),
            }
        },
    }
}

/// What `add_mint_request_handler` answers to `payer`: the answer of
/// `add_mint_request_derived` to what the engine derives for the next mint
/// nonce.
pub open spec fn add_mint_request_check(
    engine: RequestEngine,
    hub: AuthorityHub,
    registry: RoleRegistry,
    payer: Identity,
    btc_txid: Seq<char>,
    btc_deposit_address: Seq<char>,
) -> Result<u8, FactoryError> {
    add_mint_request_check_derived(
        engine,
        hub,
        registry,
        payer,
        btc_txid,
        btc_deposit_address,
        record_address(
            engine.program_id@,
            MINT_REQUEST_SEED@,
            spec_u64_to_le_bytes(engine.store.mint_request_counter),
        ),
    )
}

/// `request` is a request as it is created: pending, with the given terms and
/// the integrity hash of these terms.
pub open spec fn is_new_request(
    request: RequestAccount,
    kind: RequestType,
    requester: Identity,
    amount: u64,
    btc_deposit_address: Seq<char>,
    btc_txid: Seq<char>,
    nonce: u64,
    timestamp: i64,
    bump: u8,
) -> bool {
    &&& request.request_type == kind
    &&& request.requester == requester
    &&& request.amount == amount
    &&& request.btc_deposit_address@ == btc_deposit_address
    &&& request.btc_txid@ == btc_txid
    &&& request.nonce == nonce
    &&& request.timestamp == timestamp
    &&& request.status == RequestStatus::Pending
    &&& request.hash@ == request_hash(requester@, amount, btc_deposit_address, btc_txid, nonce, timestamp)
    &&& request.bump == bump
}

/// A merchant opens a mint request at the time `timestamp`. The caller must be
/// registered with the registry behind the engine's hub, and the deposit
/// address must be the one that the custodian set for the caller. The request
/// gets the next mint nonce, which is the mint counter's value before the
/// call, and the counter grows by one. A rejected call changes nothing.
/// The request carries the bump seed in `derived`; a derivation that gave
/// nothing is refused. The engine stays well formed where `derived` is what
/// the engine derives for the next mint nonce.
pub fn add_mint_request_derived(
    engine: &mut RequestEngine,
    hub: &AuthorityHub,
    registry: &RoleRegistry,
    payer: Identity,
    params: MintParams,
    timestamp: i64,
    derived: Option<(Identity, u8)>,
) -> (r: Result<MintRequestAdd, FactoryError>)
    ensures
        match r {
            Ok(event) => {
                let nonce = old(engine).store.mint_request_counter;
                let before = old(engine).mint_requests@;
                let after = final(engine).mint_requests@;
                &&& add_mint_request_check_derived(
                    *old(engine),
                    *hub,
                    *registry,
                    payer,
                    params.btc_txid@,
                    params.btc_deposit_address@,
                    derived_view(derived),
                ) matches Ok(bump)
                &&& after.len() == before.len() + 1
                &&& forall|j: int| 0 <= j < before.len() ==> after[j] == before[j]
                &&& is_new_request(
                    after[before.len() as int],
                    RequestType::Mint,
                    payer,
                    params.amount,
                    params.btc_deposit_address@,
                    params.btc_txid@,
                    nonce,
                    timestamp,
                    bump,
                )
                &&& final(engine).store == (FactoryStore {
                    mint_request_counter: (nonce + 1) as u64,
                    ..old(engine).store
                })
                &&& final(engine).program_id == old(engine).program_id
                &&& final(engine).signer == old(engine).signer
                &&& final(engine).burn_requests == old(engine).burn_requests
                &&& final(engine).custodian_btc_addresses == old(engine).custodian_btc_addresses
                &&& final(engine).merchant_btc_addresses == old(engine).merchant_btc_addresses
                &&& event.nonce == nonce
                &&& event.requester == payer
                &&& event.amount == params.amount
                &&& event.btc_deposit_address@ == params.btc_deposit_address@
                &&& event.btc_txid@ == params.btc_txid@
                &&& event.timestamp == timestamp
                &&& event.request_hash@ == after[before.len() as int].hash@
            },
            Err(e) => {
                &&& add_mint_request_check_derived(
                    *old(engine),
                    *hub,
                    *registry,
                    payer,
                    params.btc_txid@,
                    params.btc_deposit_address@,
                    derived_view(derived),
                ) == Err::<u8, _>(e)
                &&& *final(engine) == *old(engine)
            },
        },
        old(engine).wf() && derived_view(derived) == record_address(
            old(engine).program_id@,
            MINT_REQUEST_SEED@,
            spec_u64_to_le_bytes(old(engine).store.mint_request_counter),
        ) ==> final(engine).wf(),
        history_kept(*old(engine), *final(engine)),
{
    if let Err(e) = check_collaborators(engine, hub, registry) {
        return Err(e);
    }
    if registry.find_merchant(&payer).is_none() {
        return Err(FactoryError::NotMerchant);
    }
    match engine.find_custodian_btc_address(&payer) {
        Some(i) => {
            if engine.custodian_btc_addresses[i].btc_address != params.btc_deposit_address {
                return Err(FactoryError::WrongBtcDepositAddress);
            }
        },
        None => {
            return Err(FactoryError::WrongBtcDepositAddress);
        },
    }
    if params.btc_deposit_address.as_str().is_empty() {
        return Err(FactoryError::InvalidBtcAddress);
    }
    let nonce = engine.store.mint_request_counter;
    if nonce == u64::MAX {
        return Err(FactoryError::InvalidNonce);
    }
    let bump = match derived {
        Some((_, bump)) => bump,
        None => {
            return Err(FactoryError::InvalidFactoryAddress);
        },
    };
    let mut request = RequestAccount {
        request_type: RequestType::Mint,
        requester: payer,
        amount: params.amount,
        btc_deposit_address: params.btc_deposit_address.clone(),
        btc_txid: params.btc_txid.clone(),
        nonce,
        timestamp,
        status: RequestStatus::Pending,
        hash: [0u8;32],
        bump,
    };
    request.hash = request.calculate_hash();
    let event = MintRequestAdd {
        nonce,
        requester: payer,
        amount: params.amount,
        btc_deposit_address: params.btc_deposit_address,
        btc_txid: params.btc_txid,
        timestamp,
        request_hash: request.hash,
    };
    engine.mint_requests.push(request);
    engine.store.mint_request_counter = nonce + 1;
    Ok(event)
}

/// A merchant opens a mint request at the time `timestamp`. The caller must be
/// registered with the registry behind the engine's hub, and the deposit
/// address must be the one that the custodian set for the caller. The request
/// gets the next mint nonce, which is the mint counter's value before the
/// call, and the counter grows by one. A rejected call changes nothing.
pub fn add_mint_request_handler(
    engine: &mut RequestEngine,
    hub: &AuthorityHub,
    registry: &RoleRegistry,
    payer: Identity,
    params: MintParams,
    timestamp: i64,
) -> (r: Result<MintRequestAdd, FactoryError>)
    ensures
        match r {
            Ok(event) => {
                let nonce = old(engine).store.mint_request_counter;
                let before = old(engine).mint_requests@;
                let after = final(engine).mint_requests@;
                &&& add_mint_request_check(
                    *old(engine),
                    *hub,
                    *registry,
                    payer,
                    params.btc_txid@,
                    params.btc_deposit_address@,
                ) matches Ok(bump)
                &&& after.len() == before.len() + 1
                &&& forall|j: int| 0 <= j < before.len() ==> after[j] == before[j]
                &&& is_new_request(
                    after[before.len() as int],
                    RequestType::Mint,
                    payer,
                    params.amount,
                    params.btc_deposit_address@,
                    params.btc_txid@,
                    nonce,
                    timestamp,
                    bump,
                )
                &&& final(engine).store == (FactoryStore {
                    mint_request_counter: (nonce + 1) as u64,
                    ..old(engine).store
                })
                &&& final(engine).program_id == old(engine).program_id
                &&& final(engine).signer == old(engine).signer
                &&& final(engine).burn_requests == old(engine).burn_requests
                &&& final(engine).custodian_btc_addresses == old(engine).custodian_btc_addresses
                &&& final(engine).merchant_btc_addresses == old(engine).merchant_btc_addresses
                &&& event.nonce == nonce
                &&& event.requester == payer
                &&& event.amount == params.amount
                &&& event.btc_deposit_address@ == params.btc_deposit_address@
                &&& event.btc_txid@ == params.btc_txid@
                &&& event.timestamp == timestamp
                &&& event.request_hash@ == after[before.len() as int].hash@
            },
            Err(e) => {
                &&& add_mint_request_check(
                    *old(engine),
                    *hub,
                    *registry,
                    payer,
                    params.btc_txid@,
                    params.btc_deposit_address@,
                ) == Err::<u8, _>(e)
                &&& *final(engine) == *old(engine)
            },
        },
        old(engine).wf() ==> final(engine).wf(),
        history_kept(*old(engine), *final(engine)),
{
    let key = u64_to_le_bytes(engine.store.mint_request_counter);
    let derived = derive_record_address(&engine.program_id, MINT_REQUEST_SEED, key.as_slice());
    add_mint_request_derived(engine, hub, registry, payer, params, timestamp, derived)
}

// ---- Cancel Mint Request ----
/// The arguments of `cancel_mint_request_handler`.
#[derive(Clone, Copy, Debug, PartialEq, Eq)]
pub struct CancelMintParams {
    pub nonce: u64,
    pub request_hash: [u8; 32],
}

/// What `cancel_mint_request_handler` answers to `payer`.
pub open spec fn cancel_mint_request_check(engine: RequestEngine, payer: Identity, params: CancelMintParams) -> Result<
    (),
    FactoryError,
> {
    match pending_request_check(engine.mint_requests@, RequestType::Mint, params.nonce) {
        Err(e) => Err(e),
        Ok(_) => {
            let request = engine.mint_requests@[params.nonce as int];
            if request.requester != payer {
                Err(FactoryError::NotRequestInitiator)
            } else if request.hash@ != params.request_hash@ {
                Err(FactoryError::MismatchRequestHash)
            } else {
                Ok(())
            }
        },
    }
}

/// `after` is `before` with the status of the request at `nonce` set to
/// `status`, and nothing else changed.
pub open spec fn request_status_set(
    before: Seq<RequestAccount>,
    after: Seq<RequestAccount>,
    nonce: u64,
    status: RequestStatus,
) -> bool {
    after == before.update(nonce as int, RequestAccount { status, ..before[nonce as int] })
}

/// The engine but for its mint requests is as it was.
pub open spec fn only_mint_requests_differ(before: RequestEngine, after: RequestEngine) -> bool {
    &&& after.program_id == before.program_id
    &&& after.store == before.store
    &&& after.signer == before.signer
    &&& after.burn_requests == before.burn_requests
    &&& after.custodian_btc_addresses == before.custodian_btc_addresses
    &&& after.merchant_btc_addresses == before.merchant_btc_addresses
}

/// The requester withdraws a pending mint request: its status becomes
/// `Canceled`. The caller must be the request's requester and must present
/// the request's hash. A rejected call changes nothing.
pub fn cancel_mint_request_handler(engine: &mut RequestEngine, payer: Identity, params: CancelMintParams) -> (r:
    Result<MintRequestCancel, FactoryError>)
    ensures
        match r {
            Ok(event) => {
                &&& cancel_mint_request_check(*old(engine), payer, params) is Ok
                &&& request_status_set(
                    old(engine).mint_requests@,
                    final(engine).mint_requests@,
                    params.nonce,
                    RequestStatus::Canceled,
                )
                &&& only_mint_requests_differ(*old(engine), *final(engine))
                &&& event.nonce == params.nonce
                &&& event.requester == payer
                &&& event.request_hash@ == params.request_hash@
            },
            Err(e) => {
                &&& cancel_mint_request_check(*old(engine), payer, params) == Err::<(), _>(e)
                &&& *final(engine) == *old(engine)
            },
        },
        old(engine).wf() ==> final(engine).wf(),
        history_kept(*old(engine), *final(engine)),
{
    let i = match check_pending_request(&engine.mint_requests, RequestType::Mint, params.nonce) {
        Ok(i) => i,
        Err(e) => {
            return Err(e);
        },
    };
    if !engine.mint_requests[i].requester.same(&payer) {
        return Err(FactoryError::NotRequestInitiator);
    }
    if !digests_equal(&engine.mint_requests[i].hash, &params.request_hash) {
        return Err(FactoryError::MismatchRequestHash);
    }
    engine.mint_requests[i].status = RequestStatus::Canceled;
    Ok(
        MintRequestCancel {
            nonce: engine.mint_requests[i].nonce,
            requester: payer,
            request_hash: engine.mint_requests[i].hash,
        },
    )
}

// ---- Confirm Mint Request ----
/// The arguments of a confirmation of a mint request.
#[derive(Clone, Copy, Debug, PartialEq, Eq)]
pub struct ConfirmMintParams {
    pub nonce: u64,
    pub request_hash: [u8; 32],
}

/// What the engine answers to a confirmation by `payer` before the ledger is
/// asked.
pub open spec fn confirm_mint_request_check(
    engine: RequestEngine,
    hub: AuthorityHub,
    registry: RoleRegistry,
    payer: Identity,
    params: ConfirmMintParams,
    to_address: Identity,
) -> Result<(), FactoryError> {
    match collaborators_check(engine, hub, registry) {
        Err(e) => Err(e),
        Ok(_) => if !registry.store.spec_is_custodian(payer) {
            Err(FactoryError::NotCustodian)
        } else {
            match pending_request_check(engine.mint_requests@, RequestType::Mint, params.nonce) {
                Err(e) => Err(e),
                Ok(_) => {
                    let request = engine.mint_requests@[params.nonce as int];
                    if request.hash@ != params.request_hash@ {
                        Err(FactoryError::MismatchRequestHash)
                    } else if to_address != request.requester {
                        Err(FactoryError::InvalidToAddress)
                    } else {
                        match mint_check(
                            hub,
                            engine.signer.spec_identity(),
                            crate::controller::instructions::mint::MintParams {
                                to: to_address,
                                amount: request.amount,
                            },
                        ) {
                            Err(e) => Err(FactoryError::Controller(e)),
                            Ok(_) => Ok(()),
                        }
                    }
                },
            }
        },
    }
}

/// What `confirm_mint_request_handler` answers to `payer`, given what the
/// ledger answered to the credit.
pub open spec fn confirm_mint_request_result(
    engine: RequestEngine,
    hub: AuthorityHub,
    registry: RoleRegistry,
    payer: Identity,
    params: ConfirmMintParams,
    to_address: Identity,
    minted: Result<(), LedgerError>,
) -> Result<(), FactoryError> {
    match confirm_mint_request_check(engine, hub, registry, payer, params, to_address) {
        Err(e) => Err(e),
        Ok(_) => match minted {
            Err(e) => Err(FactoryError::Ledger(e)),
            Ok(_) => Ok(()),
        },
    }
}

/// The credit that the asset ledger is to make before
/// `confirm_mint_request_handler` approves the request at `params.nonce`. The
/// caller must be the custodian of the registry behind the engine's hub, the
/// request must be a pending mint request with the hash that the caller
/// presents, and `to_address` must be its requester. The engine then calls
/// the hub's `mint` with its own capability, and the hub's answer is the
/// result: the whole amount of the request, to the requester.
pub fn confirm_mint_request_instruction(
    engine: &RequestEngine,
    hub: &AuthorityHub,
    registry: &RoleRegistry,
    payer: Identity,
    params: ConfirmMintParams,
    to_address: Identity,
) -> (r: Result<LedgerInstruction, FactoryError>)
    ensures
        match r {
            Ok(instruction) => {
                &&& confirm_mint_request_check(*engine, *hub, *registry, payer, params, to_address) is Ok
                &&& instruction == (LedgerInstruction::MintTo {
                    mint: hub.store.token_mint,
                    to: to_address,
                    amount: engine.mint_requests@[params.nonce as int].amount,
                    authority: hub.authority.spec_identity(),
                })
            },
            Err(e) => confirm_mint_request_check(*engine, *hub, *registry, payer, params, to_address) == Err::<
                (),
                _,
            >(e),
        },
{
    if let Err(e) = check_collaborators(engine, hub, registry) {
        return Err(e);
    }
    if !registry.store.is_custodian(&payer) {
        return Err(FactoryError::NotCustodian);
    }
    let i = match check_pending_request(&engine.mint_requests, RequestType::Mint, params.nonce) {
        Ok(i) => i,
        Err(e) => {
            return Err(e);
        },
    };
    if !digests_equal(&engine.mint_requests[i].hash, &params.request_hash) {
        return Err(FactoryError::MismatchRequestHash);
    }
    if !to_address.same(&engine.mint_requests[i].requester) {
        return Err(FactoryError::InvalidToAddress);
    }
    match mint(
        hub,
        &engine.signer,
        crate::controller::instructions::mint::MintParams {
            to: to_address,
            amount: engine.mint_requests[i].amount,
        },
    ) {
        Ok(instruction) => Ok(instruction),
        Err(e) => Err(FactoryError::Controller(e)),
    }
}

/// The custodian confirms a pending mint request. `minted` is what the asset
/// ledger answered to the credit of `confirm_mint_request_instruction`. Where
/// that function answers with a credit and the ledger made it, the request's
/// status becomes `Approved`. Where the ledger refused, its error is handed
/// on. A rejected call changes nothing.
pub fn confirm_mint_request_handler(
    engine: &mut RequestEngine,
    hub: &AuthorityHub,
    registry: &RoleRegistry,
    payer: Identity,
    params: ConfirmMintParams,
    to_address: Identity,
    minted: Result<(), LedgerError>,
) -> (r: Result<MintConfirmed, FactoryError>)
    ensures
        match r {
            Ok(event) => {
                let request = old(engine).mint_requests@[params.nonce as int];
                &&& confirm_mint_request_result(
                    *old(engine),
                    *hub,
                    *registry,
                    payer,
                    params,
                    to_address,
                    minted,
                ) is Ok
                &&& request_status_set(
                    old(engine).mint_requests@,
                    final(engine).mint_requests@,
                    params.nonce,
                    RequestStatus::Approved,
                )
                &&& only_mint_requests_differ(*old(engine), *final(engine))
                &&& event.nonce == params.nonce
                &&& event.requester == request.requester
                &&& event.amount == request.amount
                &&& event.btc_deposit_address@ == request.btc_deposit_address@
                &&& event.btc_txid@ == request.btc_txid@
                &&& event.timestamp == request.timestamp
                &&& event.request_hash@ == request.hash@
            },
            Err(e) => {
                &&& confirm_mint_request_result(
                    *old(engine),
                    *hub,
                    *registry,
                    payer,
                    params,
                    to_address,
                    minted,
                ) == Err::<(), _>(e)
                &&& *final(engine) == *old(engine)
            },
        },
        old(engine).wf() ==> final(engine).wf(),
        history_kept(*old(engine), *final(engine)),
{
    if let Err(e) = confirm_mint_request_instruction(engine, hub, registry, payer, params, to_address) {
        return Err(e);
    }
    if let Err(e) = minted {
        return Err(FactoryError::Ledger(e));
    }
    let count = engine.mint_requests.len();
    assert(params.nonce < count);
    let i = params.nonce as usize;
    engine.mint_requests[i].status = RequestStatus::Approved;
    Ok(
        MintConfirmed {
            nonce: engine.mint_requests[i].nonce,
            requester: engine.mint_requests[i].requester,
            amount: engine.mint_requests[i].amount,
            btc_deposit_address: engine.mint_requests[i].btc_deposit_address.clone(),
            btc_txid: engine.mint_requests[i].btc_txid.clone(),
            timestamp: engine.mint_requests[i].timestamp,
            request_hash: engine.mint_requests[i].hash,
        },
    )
}

// ---- Reject Mint Request ----
/// The arguments of `reject_mint_request_handler`.
#[derive(Clone, Copy, Debug, PartialEq, Eq)]
pub struct RejectMintParams {
    pub nonce: u64,
    pub request_hash: [u8; 32],
}

/// What `reject_mint_request_handler` answers to `payer`.
pub open spec fn reject_mint_request_check(
    engine: RequestEngine,
    hub: AuthorityHub,
    registry: RoleRegistry,
    payer: Identity,
    params: RejectMintParams,
) -> Result<(), FactoryError> {
    match pending_request_check(engine.mint_requests@, RequestType::Mint, params.nonce) {
        Err(e) => Err(e),
        Ok(_) => if engine.mint_requests@[params.nonce as int].hash@ != params.request_hash@ {
            Err(FactoryError::MismatchRequestHash)
        } else {
            match collaborators_check(engine, hub, registry) {
                Err(e) => Err(e),
                Ok(_) => if !registry.store.spec_is_custodian(payer) {
                    Err(FactoryError::NotCustodian)
                } else {
                    Ok(())
                },
            }
        },
    }
}

/// The custodian rejects a pending mint request: its status becomes
/// `Rejected`, and nothing is minted. The caller must be the custodian of the
/// registry behind the engine's hub and must present the request's hash. A
/// rejected call changes nothing.
pub fn reject_mint_request_handler(
    engine: &mut RequestEngine,
    hub: &AuthorityHub,
    registry: &RoleRegistry,
    payer: Identity,
    params: RejectMintParams,
) -> (r: Result<MintRejected, FactoryError>)
    ensures
        match r {
            Ok(event) => {
                let request = old(engine).mint_requests@[params.nonce as int];
                &&& reject_mint_request_check(*old(engine), *hub, *registry, payer, params) is Ok
                &&& request_status_set(
                    old(engine).mint_requests@,
                    final(engine).mint_requests@,
                    params.nonce,
                    RequestStatus::Rejected,
                )
                &&& only_mint_requests_differ(*old(engine), *final(engine))
                &&& event.nonce == params.nonce
                &&& event.requester == request.requester
                &&& event.amount == request.amount
                &&& event.btc_deposit_address@ == request.btc_deposit_address@
                &&& event.btc_txid@ == request.btc_txid@
                &&& event.timestamp == request.timestamp
                &&& event.request_hash@ == request.hash@
            },
            Err(e) => {
                &&& reject_mint_request_check(*old(engine), *hub, *registry, payer, params) == Err::<(), _>(e)
                &&& *final(engine) == *old(engine)
            },
        },
        old(engine).wf() ==> final(engine).wf(),
        history_kept(*old(engine), *final(engine)),
{
    let i = match check_pending_request(&engine.mint_requests, RequestType::Mint, params.nonce) {
        Ok(i) => i,
        Err(e) => {
            return Err(e);
        },
    };
    if !digests_equal(&engine.mint_requests[i].hash, &params.request_hash) {
        return Err(FactoryError::MismatchRequestHash);
    }
    if let Err(e) = check_collaborators(engine, hub, registry) {
        return Err(e);
    }
    if !registry.store.is_custodian(&payer) {
        return Err(FactoryError::NotCustodian);
    }
    engine.mint_requests[i].status = RequestStatus::Rejected;
    Ok(
        MintRejected {
            nonce: engine.mint_requests[i].nonce,
            requester: engine.mint_requests[i].requester,
            amount: engine.mint_requests[i].amount,
            btc_deposit_address: engine.mint_requests[i].btc_deposit_address.clone(),
            btc_txid: engine.mint_requests[i].btc_txid.clone(),
            timestamp: engine.mint_requests[i].timestamp,
            request_hash: engine.mint_requests[i].hash,
        },
    )
}

} // verus!
