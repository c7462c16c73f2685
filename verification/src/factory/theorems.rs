use vstd::prelude::*;
use crate::controller::AuthorityHub;
use crate::factory::errors::FactoryError;
use crate::factory::instructions::burn::{burn_check_derived, confirm_burn_request_check, BurnParams};
use crate::factory::instructions::mint_requests::{
    add_mint_request_check_derived, cancel_mint_request_check, is_attested_address, confirm_mint_request_check, reject_mint_request_check,
    CancelMintParams, ConfirmMintParams, RejectMintParams,
};
use crate::factory::state::{RequestAccount, RequestStatus, RequestType};
use crate::factory::{
    collaborators_check, custodian_record_keys, first_position, history_kept, is_first_position,
    merchant_record_keys, valid_btc_address, pending_request_check, request_kept, requests_kept,
    RequestEngine,
};
use crate::identity::Identity;
use crate::members::RoleRegistry;

verus! {

/// An engine keeps its own history.
pub proof fn history_kept_reflexive(engine: RequestEngine)
    ensures
        history_kept(engine, engine),
{
}

/// What is kept from `first` to `second` and from `second` to `third` is kept
/// from `first` to `third`: over any number of calls no counter falls, no
/// request loses the terms that it was created with, and no settled request
/// changes.
pub proof fn history_kept_transitive(first: RequestEngine, second: RequestEngine, third: RequestEngine)
    requires
        history_kept(first, second),
        history_kept(second, third),
    ensures
        history_kept(first, third),
{
    assert forall|n: int| 0 <= n < first.mint_requests@.len() implies request_kept(
        #[trigger] first.mint_requests@[n],
        third.mint_requests@[n],
    ) by {
        assert(request_kept(first.mint_requests@[n], second.mint_requests@[n]));
        assert(request_kept(second.mint_requests@[n], third.mint_requests@[n]));
    }
    assert forall|n: int| 0 <= n < first.burn_requests@.len() implies request_kept(
        #[trigger] first.burn_requests@[n],
        third.burn_requests@[n],
    ) by {
        assert(request_kept(first.burn_requests@[n], second.burn_requests@[n]));
        assert(request_kept(second.burn_requests@[n], third.burn_requests@[n]));
    }
}

/// In a well-formed engine the counters count the requests, and a nonce names
/// one request of its kind and no other.
pub proof fn nonce_names_one_request(engine: RequestEngine, i: int, j: int)
    requires
        engine.wf(),
    ensures
        engine.mint_requests@.len() == engine.store.mint_request_counter,
        engine.burn_requests@.len() == engine.store.burn_request_counter,
        0 <= i < engine.mint_requests@.len() && 0 <= j < engine.mint_requests@.len()
            && engine.mint_requests@[i].nonce == engine.mint_requests@[j].nonce ==> i == j,
        0 <= i < engine.burn_requests@.len() && 0 <= j < engine.burn_requests@.len()
            && engine.burn_requests@[i].nonce == engine.burn_requests@[j].nonce ==> i == j,
        0 <= i < engine.mint_requests@.len() ==> engine.mint_requests@[i].nonce
            < engine.store.mint_request_counter,
        0 <= i < engine.burn_requests@.len() ==> engine.burn_requests@[i].nonce
            < engine.store.burn_request_counter,
{
}

/// A request that left `Pending` is not found pending again: once a call has
/// settled the request at `nonce`, the next look at it answers
/// `NotPendingRequest`.
pub proof fn settled_request_is_not_pending(
    before: Seq<RequestAccount>,
    after: Seq<RequestAccount>,
    kind: RequestType,
    nonce: u64,
)
    requires
        pending_request_check(before, kind, nonce) is Ok,
        requests_kept(before, after),
        after[nonce as int].status != RequestStatus::Pending,
    ensures
        pending_request_check(after, kind, nonce) == Err::<(), _>(FactoryError::NotPendingRequest),
{
    assert(request_kept(before[nonce as int], after[nonce as int]));
}

/// No call settles a mint request that is settled: whoever calls, with
/// whatever hash and recipient, cancelling, confirming and rejecting are all
/// refused.
pub proof fn settled_mint_request_refuses(
    engine: RequestEngine,
    hub: AuthorityHub,
    registry: RoleRegistry,
    payer: Identity,
    nonce: u64,
    request_hash: [u8; 32],
    to_address: Identity,
)
    requires
        nonce < engine.mint_requests@.len(),
        engine.mint_requests@[nonce as int].status != RequestStatus::Pending,
    ensures
        cancel_mint_request_check(engine, payer, CancelMintParams { nonce, request_hash }) is Err,
        confirm_mint_request_check(
            engine,
            hub,
            registry,
            payer,
            ConfirmMintParams { nonce, request_hash },
            to_address,
        ) is Err,
        reject_mint_request_check(engine, hub, registry, payer, RejectMintParams { nonce, request_hash })
            is Err,
        engine.wf() ==> cancel_mint_request_check(engine, payer, CancelMintParams { nonce, request_hash })
            == Err::<(), _>(FactoryError::NotPendingRequest),
        engine.wf() ==> reject_mint_request_check(
            engine,
            hub,
            registry,
            payer,
            RejectMintParams { nonce, request_hash },
        ) == Err::<(), _>(FactoryError::NotPendingRequest),
        engine.wf() && collaborators_check(engine, hub, registry) is Ok && registry.store.spec_is_custodian(
            payer,
        ) ==> confirm_mint_request_check(
            engine,
            hub,
            registry,
            payer,
            ConfirmMintParams { nonce, request_hash },
            to_address,
        ) == Err::<(), _>(FactoryError::NotPendingRequest),
{
    if engine.wf() {
        assert(engine.mint_requests@[nonce as int].nonce == nonce);
    }
}

/// No call settles a burn request that is settled.
pub proof fn settled_burn_request_refuses(
    engine: RequestEngine,
    hub: AuthorityHub,
    registry: RoleRegistry,
    payer: Identity,
    nonce: u64,
    btc_txid: Seq<char>,
    request_hash: Seq<u8>,
)
    requires
        nonce < engine.burn_requests@.len(),
        engine.burn_requests@[nonce as int].status != RequestStatus::Pending,
    ensures
        confirm_burn_request_check(engine, hub, registry, payer, nonce, btc_txid, request_hash) is Err,
        engine.wf() ==> confirm_burn_request_check(engine, hub, registry, payer, nonce, btc_txid, request_hash)
            == Err::<(), _>(FactoryError::NotPendingRequest),
{
    if engine.wf() {
        assert(engine.burn_requests@[nonce as int].nonce == nonce);
    }
}

/// The stored hash of a well-formed request is the hash of its stored fields,
/// as long as the request holds the transaction id that it was created with:
/// always for a mint request, and for a burn request until its confirmation
/// writes the payout's id.
pub proof fn stored_hash_is_recomputed(request: RequestAccount)
    requires
        request.wf(),
        request.request_type == RequestType::Mint || request.btc_txid@.len() == 0,
    ensures
        request.hash@ == request.spec_calculate_hash(),
{
    if request.request_type == RequestType::Burn {
        assert(request.btc_txid@ =~= Seq::<char>::empty());
    }
}

/// A call that presents another hash than the one stored is refused, whoever
/// calls and whatever else it presents.
pub proof fn wrong_hash_is_refused(
    engine: RequestEngine,
    hub: AuthorityHub,
    registry: RoleRegistry,
    payer: Identity,
    nonce: u64,
    request_hash: [u8; 32],
    to_address: Identity,
    btc_txid: Seq<char>,
)
    ensures
        nonce < engine.mint_requests@.len() && engine.mint_requests@[nonce as int].hash@ != request_hash@ ==> {
            &&& cancel_mint_request_check(engine, payer, CancelMintParams { nonce, request_hash }) is Err
            &&& confirm_mint_request_check(
                engine,
                hub,
                registry,
                payer,
                ConfirmMintParams { nonce, request_hash },
                to_address,
            ) is Err
            &&& reject_mint_request_check(
                engine,
                hub,
                registry,
                payer,
                RejectMintParams { nonce, request_hash },
            ) is Err
        },
        nonce < engine.burn_requests@.len() && engine.burn_requests@[nonce as int].hash@ != request_hash@
            ==> confirm_burn_request_check(engine, hub, registry, payer, nonce, btc_txid, request_hash@)
            is Err,
{
}

/// A confirmation that names another recipient than the request's requester
/// is refused; where the caller is the custodian and presents the hash of a
/// pending mint request, it is refused with `InvalidToAddress`.
pub proof fn redirected_mint_is_refused(
    engine: RequestEngine,
    hub: AuthorityHub,
    registry: RoleRegistry,
    payer: Identity,
    params: ConfirmMintParams,
    to_address: Identity,
)
    requires
        params.nonce < engine.mint_requests@.len(),
        to_address != engine.mint_requests@[params.nonce as int].requester,
    ensures
        confirm_mint_request_check(engine, hub, registry, payer, params, to_address) is Err,
        collaborators_check(engine, hub, registry) is Ok && registry.store.spec_is_custodian(payer)
            && pending_request_check(engine.mint_requests@, RequestType::Mint, params.nonce) is Ok
            && engine.mint_requests@[params.nonce as int].hash@ == params.request_hash@
            ==> confirm_mint_request_check(engine, hub, registry, payer, params, to_address) == Err::<(), _>(
            FactoryError::InvalidToAddress,
        ),
{
}

/// The next mint nonce is never withheld from a merchant. In a well-formed
/// engine whose mint counter is not exhausted, a registered merchant that
/// names the address that the custodian set for it is answered with a new
/// request, whatever the amount and the transaction id, as soon as the
/// derivation gives an address for the request. By the contract of
/// `add_mint_request_derived` that request has the counter's value as its
/// nonce, the counter grows by one, the burn counter stays, and every earlier
/// request is as it was.
pub proof fn merchant_opens_the_next_mint_request(
    engine: RequestEngine,
    hub: AuthorityHub,
    registry: RoleRegistry,
    payer: Identity,
    btc_txid: Seq<char>,
    btc_deposit_address: Seq<char>,
    derived: Seq<u8>,
    bump: u8,
)
    requires
        engine.wf(),
        collaborators_check(engine, hub, registry) is Ok,
        registry.is_merchant(payer),
        is_attested_address(engine, payer, btc_deposit_address),
        engine.store.mint_request_counter < u64::MAX,
    ensures
        add_mint_request_check_derived(
            engine,
            hub,
            registry,
            payer,
            btc_txid,
            btc_deposit_address,
            Some((derived, bump)),
        ) == Ok::<_, FactoryError>(bump),
{
    let keys = custodian_record_keys(engine.custodian_btc_addresses@);
    let i = first_position(keys, payer)->0;
    assert(valid_btc_address(engine.custodian_btc_addresses@[i].btc_address@));
}

/// The next burn nonce is never withheld from a merchant. In a well-formed
/// engine whose burn counter is not exhausted, a registered merchant that has
/// set a redemption address is answered with the debit of any amount but
/// zero, as soon as the derivation gives an address for the request.
pub proof fn merchant_opens_the_next_burn_request(
    engine: RequestEngine,
    hub: AuthorityHub,
    registry: RoleRegistry,
    payer: Identity,
    params: BurnParams,
    derived: Seq<u8>,
    bump: u8,
)
    requires
        engine.wf(),
        collaborators_check(engine, hub, registry) is Ok,
        registry.is_merchant(payer),
        first_position(merchant_record_keys(engine.merchant_btc_addresses@), payer) is Some,
        params.amount > 0,
        engine.store.burn_request_counter < u64::MAX,
    ensures
        burn_check_derived(engine, hub, registry, payer, params, Some((derived, bump))) == Ok::<
            _,
            FactoryError,
        >(bump),
{
    let keys = merchant_record_keys(engine.merchant_btc_addresses@);
    let i = first_position(keys, payer)->0;
    assert(is_first_position(keys, payer, i));
    assert(valid_btc_address(engine.merchant_btc_addresses@[i].btc_address@));
}

} // verus!
