use vstd::prelude::*;
use crate::derivation::{derived_identity, Capability};
use crate::factory::errors::FactoryError;
use crate::factory::state::FactoryStore;
use crate::factory::{RequestEngine, FACTORY_SEED};
use crate::identity::Identity;

verus! {

/// The arguments of the engine's creation.
#[derive(Clone, Copy, Debug, PartialEq, Eq)]
pub struct InitializeParams {
    pub controller: Identity,
}

/// Creates the request engine of the component `program_id`, linked to the
/// authority hub `params.controller`, around the capability that was derived
/// for it: both counters at zero, no request, no address record. It fails
/// with `InvalidFactoryAddress` exactly where the capability is missing or is
/// not the one that `program_id` derives under `FACTORY_SEED`.
pub fn handler_derived(program_id: Identity, params: InitializeParams, signer: Option<Capability>) -> (r: Result<
    RequestEngine,
    FactoryError,
>)
    ensures
        match r {
            Ok(engine) => {
                &&& Some(engine.signer) == signer
                &&& engine.signer.spec_deriver() == program_id
                &&& engine.signer.spec_label() == FACTORY_SEED@
                &&& engine.store.bump == engine.signer.spec_bump()
                &&& engine.program_id == program_id
                &&& engine.store.controller == params.controller
                &&& engine.store.mint_request_counter == 0
                &&& engine.store.burn_request_counter == 0
                &&& engine.mint_requests@.len() == 0
                &&& engine.burn_requests@.len() == 0
                &&& engine.custodian_btc_addresses@.len() == 0
                &&& engine.merchant_btc_addresses@.len() == 0
                &&& engine.wf()
            },
            Err(e) => {
                &&& e == FactoryError::InvalidFactoryAddress
                &&& !(signer matches Some(capability) && capability.spec_deriver() == program_id
                    && capability.spec_label() == FACTORY_SEED@)
            },
        },
{
    let signer = match signer {
        Some(signer) => signer,
        None => {
            return Err(FactoryError::InvalidFactoryAddress);
        },
    };
    if !signer.is_derived_from(&program_id, FACTORY_SEED) {
        return Err(FactoryError::InvalidFactoryAddress);
    }
    let store = FactoryStore {
        mint_request_counter: 0,
        burn_request_counter: 0,
        controller: params.controller,
        bump: signer.bump(),
    };
    Ok(
        RequestEngine {
            program_id,
            store,
            signer,
            mint_requests: Vec::new(),
            burn_requests: Vec::new(),
            custodian_btc_addresses: Vec::new(),
            merchant_btc_addresses: Vec::new(),
        },
    )
}

/// Creates the request engine of the component `program_id`, linked to the
/// authority hub `params.controller`: both counters at zero, no request, no
/// address record. The engine derives its own capability under
/// `FACTORY_SEED`. It fails with `InvalidFactoryAddress` exactly where
/// `program_id` derives no signing identity.
pub fn handler(program_id: Identity, params: InitializeParams) -> (r: Result<RequestEngine, FactoryError>)
    ensures
        match r {
            Ok(engine) => {
                &&& derived_identity(program_id@, FACTORY_SEED@) == Some(
                    (engine.signer.spec_identity()@, engine.store.bump),
                )
                &&& engine.program_id == program_id
                &&& engine.store.controller == params.controller
                &&& engine.store.mint_request_counter == 0
                &&& engine.store.burn_request_counter == 0
                &&& engine.mint_requests@.len() == 0
                &&& engine.burn_requests@.len() == 0
                &&& engine.custodian_btc_addresses@.len() == 0
                &&& engine.merchant_btc_addresses@.len() == 0
                &&& engine.wf()
            },
            Err(e) => e == FactoryError::InvalidFactoryAddress && derived_identity(program_id@, FACTORY_SEED@)
                is None,
        },
{
    let signer = Capability::derive(&program_id, FACTORY_SEED);
    handler_derived(program_id, params, signer)
}

} // verus!
