use custody_bridge::controller::errors::CustomError;
use custody_bridge::controller::instructions::initialize::initialize as initialize_hub;
use custody_bridge::controller::instructions::set_factory::{set_factory, SetFactoryParams};
use custody_bridge::controller::instructions::set_members::{set_members, SetMembersParams};
use custody_bridge::controller::AuthorityHub;
use custody_bridge::factory::errors::FactoryError;
use custody_bridge::factory::instructions::burn::{
    burn_handler, burn_handler_derived, burn_instruction, burn_instruction_derived,
    confirm_burn_request_handler, BurnParams, ConfirmBurnParams,
};
use custody_bridge::factory::instructions::initialize::{
    handler as initialize_engine, handler_derived as initialize_engine_derived, InitializeParams,
};
use custody_bridge::factory::instructions::mint_requests::{
    add_mint_request_derived, add_mint_request_handler, cancel_mint_request_handler, confirm_mint_request_handler,
    confirm_mint_request_instruction, reject_mint_request_handler, CancelMintParams,
    ConfirmMintParams, MintParams, RejectMintParams,
};
use custody_bridge::factory::instructions::set_custodian_btc_deposit_address::{
    handler as set_custodian_address, handler_derived as set_custodian_address_derived,
    SetCustodianBtcDepositAddressParams,
};
use custody_bridge::factory::instructions::set_merchant_btc_deposit_address::{
    handler as set_merchant_address, handler_derived as set_merchant_address_derived,
    SetMerchantBtcDepositAddressParams,
};
use custody_bridge::factory::state::{RequestAccount, RequestStatus, RequestType};
use custody_bridge::factory::{check_pending_request, RequestEngine};
use custody_bridge::identity::Identity;
use custody_bridge::ledger::{LedgerError, LedgerInstruction};
use custody_bridge::members::instructions::add_merchant::{add_merchant, AddMerchantParams};
use custody_bridge::members::instructions::initialize::initialize as initialize_registry;
use custody_bridge::members::instructions::remove_merchant::{remove_merchant, RemoveMerchantParams};
use custody_bridge::members::instructions::set_custodian::{set_custodian, SetCustodianParams};
use custody_bridge::members::RoleRegistry;

const MINT_HASH: [u8; 32] = [
    173, 63, 151, 3, 111, 0, 245, 147, 242, 112, 171, 122, 43, 62, 149, 24, 177, 234, 192, 106, 243,
    9, 188, 148, 195, 68, 126, 68, 7, 103, 78, 18,
];

const BURN_HASH: [u8; 32] = [
    17, 117, 158, 65, 168, 231, 162, 120, 155, 147, 24, 103, 75, 193, 11, 112, 104, 103, 113, 66,
    206, 18, 52, 209, 245, 43, 122, 151, 173, 229, 47, 149,
];

const EDGE_HASH: [u8; 32] = [
    151, 14, 247, 77, 15, 170, 216, 254, 232, 248, 202, 128, 195, 249, 134, 55, 106, 16, 123, 187,
    73, 224, 107, 204, 236, 49, 100, 70, 100, 150, 115, 188,
];

const TIME: i64 = 1_700_000_000;

fn id(n: u8) -> Identity {
    Identity::new_from_array([n; 32])
}

fn owner() -> Identity {
    id(1)
}

fn custodian() -> Identity {
    id(2)
}

fn merchant() -> Identity {
    id(5)
}

struct World {
    registry: RoleRegistry,
    hub: AuthorityHub,
    engine: RequestEngine,
}

fn world() -> World {
    let mut registry = initialize_registry(id(100), owner()).unwrap().0;
    set_custodian(&mut registry, owner(), SetCustodianParams { custodian: custodian() }).unwrap();
    add_merchant(&mut registry, owner(), AddMerchantParams { merchant: merchant() }).unwrap();
    let mut hub = initialize_hub(id(101), owner(), id(50)).unwrap().0;
    set_members(&mut hub, owner(), SetMembersParams { members: id(100) }).unwrap();
    set_factory(&mut hub, owner(), SetFactoryParams { factory: id(102) }).unwrap();
    let engine = initialize_engine(id(102), InitializeParams { controller: id(101) }).unwrap();
    World { registry, hub, engine }
}

fn attest(w: &mut World, address: &str) {
    set_custodian_address(
        &mut w.engine,
        &w.hub,
        &w.registry,
        custodian(),
        SetCustodianBtcDepositAddressParams {
            merchant: merchant(),
            btc_deposit_address: address.to_string(),
        },
    )
    .unwrap();
}

fn redeem_to(w: &mut World, address: &str) {
    set_merchant_address(
        &mut w.engine,
        &w.hub,
        &w.registry,
        merchant(),
        SetMerchantBtcDepositAddressParams { btc_deposit_address: address.to_string() },
    )
    .unwrap();
}

fn mint_params(amount: u64, txid: &str, address: &str) -> MintParams {
    MintParams { amount, btc_txid: txid.to_string(), btc_deposit_address: address.to_string() }
}

fn open_mint(w: &mut World) -> [u8; 32] {
    attest(w, "addr1");
    add_mint_request_handler(
        &mut w.engine,
        &w.hub,
        &w.registry,
        merchant(),
        mint_params(1000, "", "addr1"),
        TIME,
    )
    .unwrap()
    .request_hash
}

fn open_burn(w: &mut World) -> [u8; 32] {
    redeem_to(w, "addrX");
    burn_handler(
        &mut w.engine,
        &w.hub,
        &w.registry,
        merchant(),
        BurnParams { amount: 500 },
        -1,
        Ok(()),
    )
    .unwrap()
    .request_hash
}

#[test]
fn engine_starts_empty() {
    let w = world();
    assert_eq!(w.engine.program_id, id(102));
    assert_eq!(w.engine.store.controller, id(101));
    assert_eq!(w.engine.store.mint_request_counter, 0);
    assert_eq!(w.engine.store.burn_request_counter, 0);
    assert!(w.engine.mint_requests.is_empty());
    assert!(w.engine.burn_requests.is_empty());
    assert!(w.engine.custodian_btc_addresses.is_empty());
    assert!(w.engine.merchant_btc_addresses.is_empty());
    assert_eq!(w.engine.signer.deriver(), id(102));
    assert_eq!(w.engine.signer.bump(), w.engine.store.bump);
}

#[test]
fn mint_request_is_confirmed() {
    let mut w = world();
    attest(&mut w, "addr1");
    let added = add_mint_request_handler(
        &mut w.engine,
        &w.hub,
        &w.registry,
        merchant(),
        mint_params(1000, "", "addr1"),
        TIME,
    )
    .unwrap();
    assert_eq!(added.nonce, 0);
    assert_eq!(added.requester, merchant());
    assert_eq!(added.amount, 1000);
    assert_eq!(added.btc_deposit_address, "addr1");
    assert_eq!(added.btc_txid, "");
    assert_eq!(added.timestamp, TIME);
    assert_eq!(added.request_hash, MINT_HASH);
    assert_eq!(w.engine.store.mint_request_counter, 1);
    assert_eq!(w.engine.mint_requests.len(), 1);
    assert_eq!(w.engine.mint_requests[0].nonce, 0);
    assert_eq!(w.engine.mint_requests[0].status, RequestStatus::Pending);
    assert_eq!(w.engine.mint_requests[0].request_type, RequestType::Mint);
    assert_eq!(w.engine.mint_requests[0].hash, MINT_HASH);

    let params = ConfirmMintParams { nonce: 0, request_hash: MINT_HASH };
    let mut ledger_calls: Vec<LedgerInstruction> = Vec::new();
    let instruction =
        confirm_mint_request_instruction(&w.engine, &w.hub, &w.registry, custodian(), params, merchant())
            .unwrap();
    ledger_calls.push(instruction);
    let confirmed = confirm_mint_request_handler(
        &mut w.engine,
        &w.hub,
        &w.registry,
        custodian(),
        params,
        merchant(),
        Ok(()),
    )
    .unwrap();
    assert_eq!(
        ledger_calls,
        vec![LedgerInstruction::MintTo {
            mint: id(50),
            to: merchant(),
            amount: 1000,
            authority: w.hub.authority.identity(),
        }]
    );
    assert_eq!(confirmed.nonce, 0);
    assert_eq!(confirmed.requester, merchant());
    assert_eq!(confirmed.amount, 1000);
    assert_eq!(confirmed.request_hash, MINT_HASH);
    assert_eq!(w.engine.mint_requests[0].status, RequestStatus::Approved);
}

#[test]
fn canceled_mint_request_cannot_be_confirmed() {
    let mut w = world();
    let hash = open_mint(&mut w);
    let canceled = cancel_mint_request_handler(
        &mut w.engine,
        merchant(),
        CancelMintParams { nonce: 0, request_hash: hash },
    )
    .unwrap();
    assert_eq!(canceled.nonce, 0);
    assert_eq!(canceled.requester, merchant());
    assert_eq!(canceled.request_hash, hash);
    assert_eq!(w.engine.mint_requests[0].status, RequestStatus::Canceled);
    let params = ConfirmMintParams { nonce: 0, request_hash: hash };
    assert_eq!(
        confirm_mint_request_instruction(&w.engine, &w.hub, &w.registry, custodian(), params, merchant()),
        Err(FactoryError::NotPendingRequest)
    );
    assert_eq!(
        confirm_mint_request_handler(
            &mut w.engine,
            &w.hub,
            &w.registry,
            custodian(),
            params,
            merchant(),
            Ok(())
        ),
        Err(FactoryError::NotPendingRequest)
    );
    assert_eq!(w.engine.mint_requests[0].status, RequestStatus::Canceled);
}

#[test]
fn burn_is_recorded_and_confirmed() {
    let mut w = world();
    redeem_to(&mut w, "addrX");
    let instruction =
        burn_instruction(&w.engine, &w.hub, &w.registry, merchant(), BurnParams { amount: 500 }).unwrap();
    assert_eq!(instruction, LedgerInstruction::Burn { mint: id(50), from: merchant(), amount: 500 });
    assert!(w.engine.burn_requests.is_empty());
    assert_eq!(w.engine.store.burn_request_counter, 0);
    let burned = burn_handler(
        &mut w.engine,
        &w.hub,
        &w.registry,
        merchant(),
        BurnParams { amount: 500 },
        -1,
        Ok(()),
    )
    .unwrap();
    assert_eq!(burned.nonce, 0);
    assert_eq!(burned.requester, merchant());
    assert_eq!(burned.amount, 500);
    assert_eq!(burned.btc_deposit_address, "addrX");
    assert_eq!(burned.timestamp, -1);
    assert_eq!(burned.request_hash, BURN_HASH);
    assert_eq!(w.engine.store.burn_request_counter, 1);
    assert_eq!(w.engine.burn_requests[0].status, RequestStatus::Pending);
    assert_eq!(w.engine.burn_requests[0].request_type, RequestType::Burn);
    assert_eq!(w.engine.burn_requests[0].btc_txid, "");
    assert_eq!(w.engine.burn_requests[0].nonce, 0);

    let confirmed = confirm_burn_request_handler(
        &mut w.engine,
        &w.hub,
        &w.registry,
        custodian(),
        ConfirmBurnParams { nonce: 0, btc_txid: "txid123".to_string(), request_hash: BURN_HASH },
    )
    .unwrap();
    assert_eq!(confirmed.nonce, 0);
    assert_eq!(confirmed.btc_txid, "txid123");
    assert_eq!(confirmed.btc_deposit_address, "addrX");
    assert_eq!(confirmed.request_hash, BURN_HASH);
    assert_eq!(w.engine.burn_requests[0].status, RequestStatus::Approved);
    assert_eq!(w.engine.burn_requests[0].btc_txid, "txid123");
    assert_eq!(w.engine.burn_requests[0].hash, BURN_HASH);

    assert_eq!(
        reject_mint_request_handler(
            &mut w.engine,
            &w.hub,
            &w.registry,
            custodian(),
            RejectMintParams { nonce: 0, request_hash: BURN_HASH }
        ),
        Err(FactoryError::InvalidNonce)
    );
    assert_eq!(
        cancel_mint_request_handler(
            &mut w.engine,
            merchant(),
            CancelMintParams { nonce: 0, request_hash: BURN_HASH }
        ),
        Err(FactoryError::InvalidNonce)
    );
    assert_eq!(w.engine.burn_requests[0].status, RequestStatus::Approved);
}

#[test]
fn confirmed_burn_cannot_be_confirmed_again() {
    let mut w = world();
    let hash = open_burn(&mut w);
    let params = ConfirmBurnParams { nonce: 0, btc_txid: "txid123".to_string(), request_hash: hash };
    confirm_burn_request_handler(&mut w.engine, &w.hub, &w.registry, custodian(), params.clone()).unwrap();
    let again = ConfirmBurnParams { nonce: 0, btc_txid: "other".to_string(), request_hash: hash };
    assert_eq!(
        confirm_burn_request_handler(&mut w.engine, &w.hub, &w.registry, custodian(), again),
        Err(FactoryError::NotPendingRequest)
    );
    assert_eq!(w.engine.burn_requests[0].btc_txid, "txid123");
}

#[test]
fn each_mint_transition_happens_once() {
    let mut w = world();
    let hash = open_mint(&mut w);
    let reject = RejectMintParams { nonce: 0, request_hash: hash };
    let rejected =
        reject_mint_request_handler(&mut w.engine, &w.hub, &w.registry, custodian(), reject).unwrap();
    assert_eq!(rejected.nonce, 0);
    assert_eq!(rejected.amount, 1000);
    assert_eq!(w.engine.mint_requests[0].status, RequestStatus::Rejected);
    assert_eq!(
        reject_mint_request_handler(&mut w.engine, &w.hub, &w.registry, custodian(), reject),
        Err(FactoryError::NotPendingRequest)
    );
    assert_eq!(
        cancel_mint_request_handler(
            &mut w.engine,
            merchant(),
            CancelMintParams { nonce: 0, request_hash: hash }
        ),
        Err(FactoryError::NotPendingRequest)
    );
    assert_eq!(
        confirm_mint_request_handler(
            &mut w.engine,
            &w.hub,
            &w.registry,
            custodian(),
            ConfirmMintParams { nonce: 0, request_hash: hash },
            merchant(),
            Ok(())
        ),
        Err(FactoryError::NotPendingRequest)
    );
    assert_eq!(w.engine.mint_requests[0].status, RequestStatus::Rejected);
}

#[test]
fn approved_mint_cannot_be_approved_again() {
    let mut w = world();
    let hash = open_mint(&mut w);
    let params = ConfirmMintParams { nonce: 0, request_hash: hash };
    confirm_mint_request_handler(&mut w.engine, &w.hub, &w.registry, custodian(), params, merchant(), Ok(()))
        .unwrap();
    assert_eq!(
        confirm_mint_request_instruction(&w.engine, &w.hub, &w.registry, custodian(), params, merchant()),
        Err(FactoryError::NotPendingRequest)
    );
}

#[test]
fn wrong_hash_is_refused_everywhere() {
    let mut w = world();
    let hash = open_mint(&mut w);
    let burn_hash = open_burn(&mut w);
    let mut wrong = hash;
    wrong[0] ^= 1;
    assert_eq!(
        cancel_mint_request_handler(
            &mut w.engine,
            merchant(),
            CancelMintParams { nonce: 0, request_hash: wrong }
        ),
        Err(FactoryError::MismatchRequestHash)
    );
    assert_eq!(
        confirm_mint_request_handler(
            &mut w.engine,
            &w.hub,
            &w.registry,
            custodian(),
            ConfirmMintParams { nonce: 0, request_hash: wrong },
            merchant(),
            Ok(())
        ),
        Err(FactoryError::MismatchRequestHash)
    );
    assert_eq!(
        reject_mint_request_handler(
            &mut w.engine,
            &w.hub,
            &w.registry,
            custodian(),
            RejectMintParams { nonce: 0, request_hash: wrong }
        ),
        Err(FactoryError::MismatchRequestHash)
    );
    let mut wrong_burn = burn_hash;
    wrong_burn[31] ^= 0x80;
    assert_eq!(
        confirm_burn_request_handler(
            &mut w.engine,
            &w.hub,
            &w.registry,
            custodian(),
            ConfirmBurnParams { nonce: 0, btc_txid: "t".to_string(), request_hash: wrong_burn }
        ),
        Err(FactoryError::MismatchRequestHash)
    );
    assert_eq!(w.engine.mint_requests[0].status, RequestStatus::Pending);
    assert_eq!(w.engine.burn_requests[0].status, RequestStatus::Pending);
}

#[test]
fn stored_hash_is_the_hash_of_the_stored_fields() {
    let mut w = world();
    open_mint(&mut w);
    open_burn(&mut w);
    assert_eq!(w.engine.mint_requests[0].calculate_hash(), w.engine.mint_requests[0].hash);
    assert_eq!(w.engine.burn_requests[0].calculate_hash(), w.engine.burn_requests[0].hash);
}

#[test]
fn hash_covers_every_term() {
    let request = RequestAccount {
        request_type: RequestType::Mint,
        requester: id(7),
        amount: u64::MAX,
        btc_deposit_address: "bc1q\u{e9}".to_string(),
        btc_txid: "ab".repeat(32),
        nonce: 3,
        timestamp: i64::MIN,
        status: RequestStatus::Pending,
        hash: [0; 32],
        bump: 0,
    };
    assert_eq!(request.calculate_hash(), EDGE_HASH);
    let mut changed = request.clone();
    changed.amount -= 1;
    assert_ne!(changed.calculate_hash(), EDGE_HASH);
    let mut changed = request.clone();
    changed.nonce = 4;
    assert_ne!(changed.calculate_hash(), EDGE_HASH);
    let mut changed = request.clone();
    changed.timestamp = i64::MAX;
    assert_ne!(changed.calculate_hash(), EDGE_HASH);
    let mut changed = request.clone();
    changed.requester = id(8);
    assert_ne!(changed.calculate_hash(), EDGE_HASH);
    let mut changed = request.clone();
    changed.status = RequestStatus::Approved;
    changed.bump = 9;
    assert_eq!(changed.calculate_hash(), EDGE_HASH);
}

#[test]
fn hash_is_the_keccak_digest_of_the_terms() {
    let mut w = world();
    open_mint(&mut w);
    let request = &w.engine.mint_requests[0];
    #[allow(deprecated)]
    let expected = anchor_lang::solana_program::keccak::hashv(&[
        &request.requester.bytes,
        &request.amount.to_le_bytes(),
        request.btc_deposit_address.as_bytes(),
        request.btc_txid.as_bytes(),
        &request.nonce.to_le_bytes(),
        &request.timestamp.to_le_bytes(),
    ]);
    assert_eq!(request.hash, expected.0);
}

#[test]
fn nonces_count_up_and_are_not_reused() {
    let mut w = world();
    attest(&mut w, "addr1");
    redeem_to(&mut w, "addrX");
    for expected in 0..3u64 {
        let added = add_mint_request_handler(
            &mut w.engine,
            &w.hub,
            &w.registry,
            merchant(),
            mint_params(10 + expected, "", "addr1"),
            TIME,
        )
        .unwrap();
        assert_eq!(added.nonce, expected);
        assert_eq!(w.engine.store.mint_request_counter, expected + 1);
    }
    for expected in 0..2u64 {
        let burned = burn_handler(
            &mut w.engine,
            &w.hub,
            &w.registry,
            merchant(),
            BurnParams { amount: 1 + expected },
            TIME,
            Ok(()),
        )
        .unwrap();
        assert_eq!(burned.nonce, expected);
        assert_eq!(w.engine.store.burn_request_counter, expected + 1);
    }
    let hash = w.engine.mint_requests[1].hash;
    cancel_mint_request_handler(&mut w.engine, merchant(), CancelMintParams { nonce: 1, request_hash: hash })
        .unwrap();
    for nonce in 0..3usize {
        assert_eq!(w.engine.mint_requests[nonce].nonce, nonce as u64);
        assert_eq!(w.engine.mint_requests[nonce].amount, 10 + nonce as u64);
    }
    let next = add_mint_request_handler(
        &mut w.engine,
        &w.hub,
        &w.registry,
        merchant(),
        mint_params(99, "", "addr1"),
        TIME,
    )
    .unwrap();
    assert_eq!(next.nonce, 3);
    assert_eq!(w.engine.mint_requests[1].status, RequestStatus::Canceled);
    assert_eq!(w.engine.burn_requests[1].amount, 2);
}

#[test]
fn exhausted_counters_refuse_new_requests() {
    let mut w = world();
    attest(&mut w, "addr1");
    redeem_to(&mut w, "addrX");
    w.engine.store.mint_request_counter = u64::MAX;
    w.engine.store.burn_request_counter = u64::MAX;
    assert_eq!(
        add_mint_request_handler(
            &mut w.engine,
            &w.hub,
            &w.registry,
            merchant(),
            mint_params(1, "", "addr1"),
            TIME
        ),
        Err(FactoryError::InvalidNonce)
    );
    assert_eq!(
        burn_instruction(&w.engine, &w.hub, &w.registry, merchant(), BurnParams { amount: 1 }),
        Err(FactoryError::InvalidNonce)
    );
    assert_eq!(w.engine.store.mint_request_counter, u64::MAX);
    assert!(w.engine.mint_requests.is_empty());
}

#[test]
fn redirected_confirmation_is_refused() {
    let mut w = world();
    let hash = open_mint(&mut w);
    let params = ConfirmMintParams { nonce: 0, request_hash: hash };
    assert_eq!(
        confirm_mint_request_instruction(&w.engine, &w.hub, &w.registry, custodian(), params, id(6)),
        Err(FactoryError::InvalidToAddress)
    );
    assert_eq!(
        confirm_mint_request_handler(&mut w.engine, &w.hub, &w.registry, custodian(), params, id(6), Ok(())),
        Err(FactoryError::InvalidToAddress)
    );
    assert_eq!(w.engine.mint_requests[0].status, RequestStatus::Pending);
}

#[test]
fn failed_ledger_calls_leave_no_trace() {
    let mut w = world();
    let hash = open_mint(&mut w);
    redeem_to(&mut w, "addrX");
    let refusal = LedgerError { code: 17 };
    assert_eq!(
        confirm_mint_request_handler(
            &mut w.engine,
            &w.hub,
            &w.registry,
            custodian(),
            ConfirmMintParams { nonce: 0, request_hash: hash },
            merchant(),
            Err(refusal)
        ),
        Err(FactoryError::Ledger(refusal))
    );
    assert_eq!(w.engine.mint_requests[0].status, RequestStatus::Pending);
    assert_eq!(
        burn_handler(
            &mut w.engine,
            &w.hub,
            &w.registry,
            merchant(),
            BurnParams { amount: 500 },
            TIME,
            Err(refusal)
        ),
        Err(FactoryError::Ledger(refusal))
    );
    assert!(w.engine.burn_requests.is_empty());
    assert_eq!(w.engine.store.burn_request_counter, 0);
}

#[test]
fn only_custodian_settles_requests() {
    let mut w = world();
    let hash = open_mint(&mut w);
    let burn_hash = open_burn(&mut w);
    assert_eq!(
        confirm_mint_request_instruction(
            &w.engine,
            &w.hub,
            &w.registry,
            merchant(),
            ConfirmMintParams { nonce: 0, request_hash: hash },
            merchant()
        ),
        Err(FactoryError::NotCustodian)
    );
    assert_eq!(
        reject_mint_request_handler(
            &mut w.engine,
            &w.hub,
            &w.registry,
            owner(),
            RejectMintParams { nonce: 0, request_hash: hash }
        ),
        Err(FactoryError::NotCustodian)
    );
    assert_eq!(
        confirm_burn_request_handler(
            &mut w.engine,
            &w.hub,
            &w.registry,
            merchant(),
            ConfirmBurnParams { nonce: 0, btc_txid: "t".to_string(), request_hash: burn_hash }
        ),
        Err(FactoryError::NotCustodian)
    );
    assert_eq!(
        set_custodian_address(
            &mut w.engine,
            &w.hub,
            &w.registry,
            merchant(),
            SetCustodianBtcDepositAddressParams {
                merchant: merchant(),
                btc_deposit_address: "x".to_string()
            }
        ),
        Err(FactoryError::NotCustodian)
    );
}

#[test]
fn only_requester_cancels() {
    let mut w = world();
    let hash = open_mint(&mut w);
    assert_eq!(
        cancel_mint_request_handler(
            &mut w.engine,
            custodian(),
            CancelMintParams { nonce: 0, request_hash: hash }
        ),
        Err(FactoryError::NotRequestInitiator)
    );
    assert_eq!(w.engine.mint_requests[0].status, RequestStatus::Pending);
}

#[test]
fn unknown_nonce_is_out_of_range() {
    let mut w = world();
    let hash = open_mint(&mut w);
    assert_eq!(
        cancel_mint_request_handler(
            &mut w.engine,
            merchant(),
            CancelMintParams { nonce: 1, request_hash: hash }
        ),
        Err(FactoryError::InvalidNonce)
    );
    assert_eq!(
        confirm_burn_request_handler(
            &mut w.engine,
            &w.hub,
            &w.registry,
            custodian(),
            ConfirmBurnParams { nonce: 0, btc_txid: "t".to_string(), request_hash: hash }
        ),
        Err(FactoryError::InvalidNonce)
    );
}

#[test]
fn misplaced_requests_are_told_apart() {
    let mut w = world();
    open_mint(&mut w);
    open_burn(&mut w);
    let mint = w.engine.mint_requests[0].clone();
    let burn = w.engine.burn_requests[0].clone();
    assert_eq!(check_pending_request(&vec![mint.clone()], RequestType::Mint, 0), Ok(0));
    assert_eq!(
        check_pending_request(&vec![burn.clone()], RequestType::Mint, 0),
        Err(FactoryError::InvalidRequestType)
    );
    assert_eq!(
        check_pending_request(&vec![mint.clone()], RequestType::Burn, 0),
        Err(FactoryError::InvalidRequestType)
    );
    assert_eq!(
        check_pending_request(&vec![mint.clone(), mint.clone()], RequestType::Mint, 1),
        Err(FactoryError::InvalidNonce)
    );
    assert_eq!(
        check_pending_request(&vec![mint], RequestType::Mint, 1),
        Err(FactoryError::InvalidNonce)
    );
    let mut settled = burn;
    settled.status = RequestStatus::Approved;
    assert_eq!(
        check_pending_request(&vec![settled], RequestType::Burn, 0),
        Err(FactoryError::NotPendingRequest)
    );
}

#[test]
fn mint_request_needs_the_attested_address() {
    let mut w = world();
    assert_eq!(
        add_mint_request_handler(
            &mut w.engine,
            &w.hub,
            &w.registry,
            merchant(),
            mint_params(1, "", "addr1"),
            TIME
        ),
        Err(FactoryError::WrongBtcDepositAddress)
    );
    attest(&mut w, "addr1");
    assert_eq!(
        add_mint_request_handler(
            &mut w.engine,
            &w.hub,
            &w.registry,
            merchant(),
            mint_params(1, "", "addr2"),
            TIME
        ),
        Err(FactoryError::WrongBtcDepositAddress)
    );
    assert_eq!(
        add_mint_request_handler(
            &mut w.engine,
            &w.hub,
            &w.registry,
            merchant(),
            mint_params(1, "", ""),
            TIME
        ),
        Err(FactoryError::WrongBtcDepositAddress)
    );
    assert_eq!(w.engine.store.mint_request_counter, 0);
    assert!(w.engine.mint_requests.is_empty());
}

#[test]
fn mint_request_rejects_an_empty_attested_address() {
    let mut w = world();
    attest(&mut w, "addr1");
    w.engine.custodian_btc_addresses[0].btc_address = String::new();
    assert_eq!(
        add_mint_request_handler(
            &mut w.engine,
            &w.hub,
            &w.registry,
            merchant(),
            mint_params(1, "", ""),
            TIME
        ),
        Err(FactoryError::InvalidBtcAddress)
    );
}

#[test]
fn transaction_ids_of_any_length_are_kept() {
    let mut w = world();
    attest(&mut w, "addr1");
    let added = add_mint_request_handler(
        &mut w.engine,
        &w.hub,
        &w.registry,
        merchant(),
        mint_params(1, &"a".repeat(65), "addr1"),
        TIME,
    )
    .unwrap();
    assert_eq!(added.nonce, 0);
    assert_eq!(w.engine.mint_requests[0].btc_txid.len(), 65);
    assert_eq!(w.engine.mint_requests[0].calculate_hash(), added.request_hash);
    let burn_hash = open_burn(&mut w);
    let confirmed = confirm_burn_request_handler(
        &mut w.engine,
        &w.hub,
        &w.registry,
        custodian(),
        ConfirmBurnParams { nonce: 0, btc_txid: "b".repeat(200), request_hash: burn_hash },
    )
    .unwrap();
    assert_eq!(confirmed.btc_txid.len(), 200);
    assert_eq!(w.engine.burn_requests[0].status, RequestStatus::Approved);
}

#[test]
fn strangers_are_not_merchants() {
    let mut w = world();
    attest(&mut w, "addr1");
    assert_eq!(
        add_mint_request_handler(
            &mut w.engine,
            &w.hub,
            &w.registry,
            id(6),
            mint_params(1, "", "addr1"),
            TIME
        ),
        Err(FactoryError::NotMerchant)
    );
    assert_eq!(
        set_merchant_address(
            &mut w.engine,
            &w.hub,
            &w.registry,
            id(6),
            SetMerchantBtcDepositAddressParams { btc_deposit_address: "a".to_string() }
        ),
        Err(FactoryError::NotMerchant)
    );
    assert_eq!(
        burn_instruction(&w.engine, &w.hub, &w.registry, id(6), BurnParams { amount: 1 }),
        Err(FactoryError::NotMerchant)
    );
    assert_eq!(
        set_custodian_address(
            &mut w.engine,
            &w.hub,
            &w.registry,
            custodian(),
            SetCustodianBtcDepositAddressParams { merchant: id(6), btc_deposit_address: "a".to_string() }
        ),
        Err(FactoryError::InvalidMerchant)
    );
}

#[test]
fn removed_merchant_is_no_merchant() {
    let mut w = world();
    attest(&mut w, "addr1");
    remove_merchant(&mut w.registry, owner(), RemoveMerchantParams { merchant: merchant() }).unwrap();
    assert_eq!(
        add_mint_request_handler(
            &mut w.engine,
            &w.hub,
            &w.registry,
            merchant(),
            mint_params(1, "", "addr1"),
            TIME
        ),
        Err(FactoryError::NotMerchant)
    );
}

#[test]
fn burn_rejections() {
    let mut w = world();
    assert_eq!(
        burn_instruction(&w.engine, &w.hub, &w.registry, merchant(), BurnParams { amount: 500 }),
        Err(FactoryError::InvalidBtcAddress)
    );
    redeem_to(&mut w, "addrX");
    assert_eq!(
        burn_instruction(&w.engine, &w.hub, &w.registry, merchant(), BurnParams { amount: 0 }),
        Err(FactoryError::InvalidAmount)
    );
    assert_eq!(
        burn_handler(
            &mut w.engine,
            &w.hub,
            &w.registry,
            merchant(),
            BurnParams { amount: 0 },
            TIME,
            Ok(())
        ),
        Err(FactoryError::InvalidAmount)
    );
    w.engine.merchant_btc_addresses[0].btc_address = String::new();
    assert_eq!(
        burn_instruction(&w.engine, &w.hub, &w.registry, merchant(), BurnParams { amount: 500 }),
        Err(FactoryError::InvalidBtcAddress)
    );
    assert!(w.engine.burn_requests.is_empty());
}

#[test]
fn burn_snapshots_the_address() {
    let mut w = world();
    open_burn(&mut w);
    redeem_to(&mut w, "addrY");
    assert_eq!(w.engine.merchant_btc_addresses.len(), 1);
    assert_eq!(w.engine.merchant_btc_addresses[0].btc_address, "addrY");
    assert_eq!(w.engine.burn_requests[0].btc_deposit_address, "addrX");
}

#[test]
fn addresses_are_set_and_overwritten() {
    let mut w = world();
    add_merchant(&mut w.registry, owner(), AddMerchantParams { merchant: id(6) }).unwrap();
    let event = set_custodian_address(
        &mut w.engine,
        &w.hub,
        &w.registry,
        custodian(),
        SetCustodianBtcDepositAddressParams { merchant: merchant(), btc_deposit_address: "a".to_string() },
    )
    .unwrap();
    assert_eq!(event.merchant, merchant());
    assert_eq!(event.custodian, custodian());
    assert_eq!(event.btc_deposit_address, "a");
    set_custodian_address(
        &mut w.engine,
        &w.hub,
        &w.registry,
        custodian(),
        SetCustodianBtcDepositAddressParams { merchant: id(6), btc_deposit_address: "b".to_string() },
    )
    .unwrap();
    attest(&mut w, "c");
    assert_eq!(w.engine.custodian_btc_addresses.len(), 2);
    assert_eq!(w.engine.custodian_btc_addresses[0].merchant, merchant());
    assert_eq!(w.engine.custodian_btc_addresses[0].btc_address, "c");
    assert_eq!(w.engine.custodian_btc_addresses[1].merchant, id(6));
    assert_eq!(w.engine.custodian_btc_addresses[1].btc_address, "b");
    assert_eq!(w.engine.find_custodian_btc_address(&id(6)), Some(1));
    assert_eq!(w.engine.find_custodian_btc_address(&id(7)), None);
    assert_eq!(w.engine.find_merchant_btc_address(&merchant()), None);
    let event = set_merchant_address(
        &mut w.engine,
        &w.hub,
        &w.registry,
        id(6),
        SetMerchantBtcDepositAddressParams { btc_deposit_address: "m".to_string() },
    )
    .unwrap();
    assert_eq!(event.merchant, id(6));
    assert_eq!(event.btc_deposit_address, "m");
    assert_eq!(w.engine.find_merchant_btc_address(&id(6)), Some(0));
    assert_eq!(w.engine.merchant_btc_addresses[0].btc_address, "m");
}

#[test]
fn addresses_must_be_valid() {
    let mut w = world();
    for address in [String::new(), "a".repeat(101)] {
        assert_eq!(
            set_custodian_address(
                &mut w.engine,
                &w.hub,
                &w.registry,
                custodian(),
                SetCustodianBtcDepositAddressParams {
                    merchant: merchant(),
                    btc_deposit_address: address.clone()
                }
            ),
            Err(FactoryError::InvalidBtcDepositAddress)
        );
        assert_eq!(
            set_merchant_address(
                &mut w.engine,
                &w.hub,
                &w.registry,
                merchant(),
                SetMerchantBtcDepositAddressParams { btc_deposit_address: address }
            ),
            Err(FactoryError::InvalidBtcDepositAddress)
        );
    }
    attest(&mut w, &"a".repeat(100));
    redeem_to(&mut w, &"\u{e9}".repeat(50));
    assert_eq!(w.engine.custodian_btc_addresses[0].btc_address.len(), 100);
    assert_eq!(w.engine.merchant_btc_addresses[0].btc_address.len(), 100);
}

#[test]
fn broken_links_are_refused() {
    let mut w = world();
    let hash = open_mint(&mut w);
    let other_hub = initialize_hub(id(111), owner(), id(50)).unwrap().0;
    assert_eq!(
        add_mint_request_handler(
            &mut w.engine,
            &other_hub,
            &w.registry,
            merchant(),
            mint_params(1, "", "addr1"),
            TIME
        ),
        Err(FactoryError::InvalidControllerStore)
    );
    let other_registry = initialize_registry(id(110), owner()).unwrap().0;
    assert_eq!(
        confirm_mint_request_instruction(
            &w.engine,
            &w.hub,
            &other_registry,
            custodian(),
            ConfirmMintParams { nonce: 0, request_hash: hash },
            merchant()
        ),
        Err(FactoryError::InvalidMembersStore)
    );
    let unlinked = initialize_engine(id(102), InitializeParams { controller: Identity::zero() }).unwrap();
    let zero_hub = initialize_hub(Identity::zero(), owner(), id(50)).unwrap().0;
    assert_eq!(
        burn_instruction(&unlinked, &zero_hub, &w.registry, merchant(), BurnParams { amount: 1 }),
        Err(FactoryError::InvalidControllerStore)
    );
}

#[test]
fn hub_refuses_an_engine_that_is_not_its_delegate() {
    let mut w = world();
    let hash = open_mint(&mut w);
    set_factory(&mut w.hub, owner(), SetFactoryParams { factory: id(103) }).unwrap();
    let params = ConfirmMintParams { nonce: 0, request_hash: hash };
    assert_eq!(
        confirm_mint_request_instruction(&w.engine, &w.hub, &w.registry, custodian(), params, merchant()),
        Err(FactoryError::Controller(CustomError::Unauthorized))
    );
    assert_eq!(
        confirm_mint_request_handler(
            &mut w.engine,
            &w.hub,
            &w.registry,
            custodian(),
            params,
            merchant(),
            Ok(())
        ),
        Err(FactoryError::Controller(CustomError::Unauthorized))
    );
    assert_eq!(w.engine.mint_requests[0].status, RequestStatus::Pending);
}

#[test]
fn engine_is_built_around_its_own_capability_only() {
    let own = initialize_engine(id(102), InitializeParams { controller: id(101) }).unwrap().signer;
    let bump = own.bump();
    let engine =
        initialize_engine_derived(id(102), InitializeParams { controller: id(111) }, Some(own)).unwrap();
    assert_eq!(engine.program_id, id(102));
    assert_eq!(engine.store.controller, id(111));
    assert_eq!(engine.store.bump, bump);
    assert_eq!(engine.store.mint_request_counter, 0);
    assert_eq!(engine.store.burn_request_counter, 0);
    let foreign = initialize_engine(id(103), InitializeParams { controller: id(101) }).unwrap().signer;
    assert_eq!(
        initialize_engine_derived(id(102), InitializeParams { controller: id(101) }, Some(foreign)).err(),
        Some(FactoryError::InvalidFactoryAddress)
    );
    let other_label = initialize_hub(id(102), owner(), id(50)).unwrap().0.authority;
    assert_eq!(
        initialize_engine_derived(id(102), InitializeParams { controller: id(101) }, Some(other_label)).err(),
        Some(FactoryError::InvalidFactoryAddress)
    );
    assert_eq!(
        initialize_engine_derived(id(102), InitializeParams { controller: id(101) }, None).err(),
        Some(FactoryError::InvalidFactoryAddress)
    );
}

#[test]
fn records_carry_what_was_derived() {
    let mut w = world();
    let custodian_params = SetCustodianBtcDepositAddressParams {
        merchant: merchant(),
        btc_deposit_address: "addr1".to_string(),
    };
    assert_eq!(
        set_custodian_address_derived(
            &mut w.engine,
            &w.hub,
            &w.registry,
            custodian(),
            custodian_params.clone(),
            None
        ),
        Err(FactoryError::InvalidFactoryAddress)
    );
    assert!(w.engine.custodian_btc_addresses.is_empty());
    set_custodian_address_derived(
        &mut w.engine,
        &w.hub,
        &w.registry,
        custodian(),
        custodian_params,
        Some((id(70), 201)),
    )
    .unwrap();
    assert_eq!(w.engine.custodian_btc_addresses[0].bump, 201);
    assert_eq!(w.engine.custodian_btc_addresses[0].btc_address, "addr1");

    let merchant_params = SetMerchantBtcDepositAddressParams { btc_deposit_address: "addrX".to_string() };
    assert_eq!(
        set_merchant_address_derived(
            &mut w.engine,
            &w.hub,
            &w.registry,
            merchant(),
            merchant_params.clone(),
            None
        ),
        Err(FactoryError::InvalidFactoryAddress)
    );
    set_merchant_address_derived(
        &mut w.engine,
        &w.hub,
        &w.registry,
        merchant(),
        merchant_params,
        Some((id(71), 202)),
    )
    .unwrap();
    assert_eq!(w.engine.merchant_btc_addresses[0].bump, 202);
    assert_eq!(w.engine.merchant_btc_addresses[0].merchant, merchant());
}

#[test]
fn requests_carry_what_was_derived() {
    let mut w = world();
    attest(&mut w, "addr1");
    redeem_to(&mut w, "addrX");
    assert_eq!(
        add_mint_request_derived(
            &mut w.engine,
            &w.hub,
            &w.registry,
            merchant(),
            mint_params(1000, "", "addr1"),
            TIME,
            None
        ),
        Err(FactoryError::InvalidFactoryAddress)
    );
    assert_eq!(w.engine.store.mint_request_counter, 0);
    let added = add_mint_request_derived(
        &mut w.engine,
        &w.hub,
        &w.registry,
        merchant(),
        mint_params(1000, "", "addr1"),
        TIME,
        Some((id(72), 203)),
    )
    .unwrap();
    assert_eq!(added.nonce, 0);
    assert_eq!(added.request_hash, MINT_HASH);
    assert_eq!(w.engine.mint_requests[0].bump, 203);
    assert_eq!(w.engine.store.mint_request_counter, 1);
    assert_eq!(w.engine.store.burn_request_counter, 0);

    let params = BurnParams { amount: 500 };
    assert_eq!(
        burn_instruction_derived(&w.engine, &w.hub, &w.registry, merchant(), params, None),
        Err(FactoryError::InvalidFactoryAddress)
    );
    assert_eq!(
        burn_handler_derived(&mut w.engine, &w.hub, &w.registry, merchant(), params, -1, Ok(()), None),
        Err(FactoryError::InvalidFactoryAddress)
    );
    assert!(w.engine.burn_requests.is_empty());
    assert_eq!(
        burn_instruction_derived(&w.engine, &w.hub, &w.registry, merchant(), params, Some((id(73), 204))),
        Ok(LedgerInstruction::Burn { mint: id(50), from: merchant(), amount: 500 })
    );
    let burned = burn_handler_derived(
        &mut w.engine,
        &w.hub,
        &w.registry,
        merchant(),
        params,
        -1,
        Ok(()),
        Some((id(73), 204)),
    )
    .unwrap();
    assert_eq!(burned.nonce, 0);
    assert_eq!(burned.request_hash, BURN_HASH);
    assert_eq!(w.engine.burn_requests[0].bump, 204);
    assert_eq!(w.engine.store.burn_request_counter, 1);
    assert_eq!(w.engine.store.mint_request_counter, 1);
}
