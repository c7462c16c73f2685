use vstd::prelude::*;
use crate::controller::AuthorityHub;
use crate::derivation::{derive_record_address, derived_view, record_address};
use crate::factory::errors::FactoryError;
use crate::factory::events::MerchantBtcDepositAddressSet;
use crate::factory::state::{MerchantBtcDepositAddress, MAX_BTC_ADDRESS_BYTES};
use crate::factory::{
    history_kept,
    check_collaborators, collaborators_check, first_position, is_first_position,
    lemma_least_position, merchant_record_keys, valid_btc_address, RequestEngine,
    MERCHANT_BTC_ADDRESS_SEED,
};
use crate::identity::Identity;
use crate::members::RoleRegistry;

verus! {

/// The arguments with which a merchant sets its redemption address.
#[derive(Clone, Debug, PartialEq, Eq)]
pub struct SetMerchantBtcDepositAddressParams {
    pub btc_deposit_address: String,
}

/// What `handler_derived` answers to `payer`, given what the derivation of
/// the record's address gave: the bump seed of the record, or the reason for
/// which the call is rejected.
pub open spec fn set_merchant_btc_deposit_address_check_derived(
    engine: RequestEngine,
    hub: AuthorityHub,
    registry: RoleRegistry,
    payer: Identity,
    btc_deposit_address: Seq<char>,
    derived: Option<(Seq<u8>, u8)>,
) -> Result<u8, FactoryError> {
    match collaborators_check(engine, hub, registry) {
        Err(e) => Err(e),
        Ok(_) => if !registry.is_merchant(payer) {
            Err(FactoryError::NotMerchant)
        } else if !valid_btc_address(btc_deposit_address) {
            Err(FactoryError::InvalidBtcDepositAddress)
        } else {
            match derived {
                Some((_, bump)) => Ok(bump),
                None => Err(FactoryError::InvalidFactoryAddress),
            }
        },
    }
}

/// What `handler` answers to `payer`: the answer of `handler_derived` to what
/// the engine derives for the caller's record.
pub open spec fn set_merchant_btc_deposit_address_check(
    engine: RequestEngine,
    hub: AuthorityHub,
    registry: RoleRegistry,
    payer: Identity,
    btc_deposit_address: Seq<char>,
) -> Result<u8, FactoryError> {
    set_merchant_btc_deposit_address_check_derived(
        engine,
        hub,
        registry,
        payer,
        btc_deposit_address,
        record_address(engine.program_id@, MERCHANT_BTC_ADDRESS_SEED@, payer@),
    )
}

/// `after` is `before` with the record of `merchant` set to `address` and
/// `bump`: written over the merchant's record where it has one, and put
/// behind the others where it has none. The other records are as they were.
pub open spec fn merchant_record_set(
    before: Seq<MerchantBtcDepositAddress>,
    after: Seq<MerchantBtcDepositAddress>,
    merchant: Identity,
    address: Seq<char>,
    bump: u8,
) -> bool {
    let at = match first_position(merchant_record_keys(before), merchant) {
        Some(i) => i,
        None => before.len() as int,
    };
    &&& after.len() == if at < before.len() {
        before.len()
    } else {
        before.len() + 1
    }
    &&& after[at].merchant == merchant
    &&& after[at].btc_address@ == address
    &&& after[at].bump == bump
    &&& forall|j: int| 0 <= j < before.len() && j != at ==> after[j] == before[j]
}

/// A merchant sets the address at which it receives BTC for its burns. The
/// caller must be registered with the registry behind the engine's hub, and
/// the address must be valid. A record that exists is written over. A
/// rejected call changes nothing.
/// The record carries the bump seed in `derived`; a derivation that gave
/// nothing is refused. The engine stays well formed where `derived` is what
/// the engine derives for the caller's record.
pub fn handler_derived(
    engine: &mut RequestEngine,
    hub: &AuthorityHub,
    registry: &RoleRegistry,
    payer: Identity,
    params: SetMerchantBtcDepositAddressParams,
    derived: Option<(Identity, u8)>,
) -> (r: Result<MerchantBtcDepositAddressSet, FactoryError>)
    ensures
        match r {
            Ok(event) => {
                &&& set_merchant_btc_deposit_address_check_derived(
                    *old(engine),
                    *hub,
                    *registry,
                    payer,
                    params.btc_deposit_address@,
                    derived_view(derived),
                ) matches Ok(bump)
                &&& merchant_record_set(
                    old(engine).merchant_btc_addresses@,
                    final(engine).merchant_btc_addresses@,
                    payer,
                    params.btc_deposit_address@,
                    bump,
                )
                &&& final(engine).program_id == old(engine).program_id
                &&& final(engine).store == old(engine).store
                &&& final(engine).signer == old(engine).signer
                &&& final(engine).mint_requests == old(engine).mint_requests
                &&& final(engine).burn_requests == old(engine).burn_requests
                &&& final(engine).custodian_btc_addresses == old(engine).custodian_btc_addresses
                &&& event.merchant == payer
                &&& event.btc_deposit_address@ == params.btc_deposit_address@
            },
            Err(e) => {
                &&& set_merchant_btc_deposit_address_check_derived(
                    *old(engine),
                    *hub,
                    *registry,
                    payer,
                    params.btc_deposit_address@,
                    derived_view(derived),
                ) == Err::<u8, _>(e)
                &&& *final(engine) == *old(engine)
            },
        },
        old(engine).wf() && derived_view(derived) == record_address(
            old(engine).program_id@,
            MERCHANT_BTC_ADDRESS_SEED@,
            payer@,
        ) ==> final(engine).wf(),
        history_kept(*old(engine), *final(engine)),
{
    if let Err(e) = check_collaborators(engine, hub, registry) {
        return Err(e);
    }
    if registry.find_merchant(&payer).is_none() {
        return Err(FactoryError::NotMerchant);
    }
    if params.btc_deposit_address.as_str().is_empty()
        || params.btc_deposit_address.as_str().as_bytes().len() > MAX_BTC_ADDRESS_BYTES {
        return Err(FactoryError::InvalidBtcDepositAddress);
    }
    let bump = match derived {
        Some((_, bump)) => bump,
        None => {
            return Err(FactoryError::InvalidFactoryAddress);
        },
    };
    let ghost keys = merchant_record_keys(engine.merchant_btc_addresses@);
    match engine.find_merchant_btc_address(&payer) {
        Some(i) => {
            engine.merchant_btc_addresses[i].btc_address = params.btc_deposit_address.clone();
            engine.merchant_btc_addresses[i].bump = bump;
            assert(merchant_record_keys(engine.merchant_btc_addresses@) =~= keys);
        },
        None => {
            engine.merchant_btc_addresses.push(
                MerchantBtcDepositAddress {
                    merchant: payer,
                    btc_address: params.btc_deposit_address.clone(),
                    bump,
                },
            );
            proof {
                let after = merchant_record_keys(engine.merchant_btc_addresses@);
                assert(after =~= keys.push(payer));
                assert forall|j: int| 0 <= j < keys.len() implies keys[j] != payer by {
                    if keys[j] == payer {
                        lemma_least_position(keys, payer, j);
                    }
                }
                assert forall|i: int| 0 <= i < keys.len() && is_first_position(keys, keys[i], i)
                    implies is_first_position(after, after[i], i) by {}
            }
        },
    }
    Ok(MerchantBtcDepositAddressSet { merchant: payer, btc_deposit_address: params.btc_deposit_address })
}

/// A merchant sets the address at which it receives BTC for its burns. The
/// caller must be registered with the registry behind the engine's hub, and
/// the address must be valid. A record that exists is written over. A
/// rejected call changes nothing.
pub fn handler(
    engine: &mut RequestEngine,
    hub: &AuthorityHub,
    registry: &RoleRegistry,
    payer: Identity,
    params: SetMerchantBtcDepositAddressParams,
) -> (r: Result<MerchantBtcDepositAddressSet, FactoryError>)
    ensures
        match r {
            Ok(event) => {
                &&& set_merchant_btc_deposit_address_check(
                    *old(engine),
                    *hub,
                    *registry,
                    payer,
                    params.btc_deposit_address@,
                ) matches Ok(bump)
                &&& merchant_record_set(
                    old(engine).merchant_btc_addresses@,
                    final(engine).merchant_btc_addresses@,
                    payer,
                    params.btc_deposit_address@,
                    bump,
                )
                &&& final(engine).program_id == old(engine).program_id
                &&& final(engine).store == old(engine).store
                &&& final(engine).signer == old(engine).signer
                &&& final(engine).mint_requests == old(engine).mint_requests
                &&& final(engine).burn_requests == old(engine).burn_requests
                &&& final(engine).custodian_btc_addresses == old(engine).custodian_btc_addresses
                &&& event.merchant == payer
                &&& event.btc_deposit_address@ == params.btc_deposit_address@
            },
            Err(e) => {
                &&& set_merchant_btc_deposit_address_check(
                    *old(engine),
                    *hub,
                    *registry,
                    payer,
                    params.btc_deposit_address@,
                ) == Err::<u8, _>(e)
                &&& *final(engine) == *old(engine)
            },
        },
        old(engine).wf() ==> final(engine).wf(),
        history_kept(*old(engine), *final(engine)),
{
    let derived = derive_record_address(&engine.program_id, MERCHANT_BTC_ADDRESS_SEED, payer.bytes.as_slice());
    handler_derived(engine, hub, registry, payer, params, derived)
}

} // verus!
