use vstd::prelude::*;
use crate::controller::errors::CustomError;
use crate::controller::events::ControllerInitialized;
use crate::controller::state::ControllerStore;
use crate::controller::{AuthorityHub, CONTROLLER_SEED};
use crate::derivation::{derived_identity, Capability};
use crate::identity::Identity;

verus! {

/// What `initialize` answers for the component `program_id` and the asset
/// `token_mint`: the bump seed of the hub's derived identity, or the reason
/// for which the call is rejected.
pub open spec fn initialize_check(program_id: Identity, token_mint: Identity) -> Result<u8, CustomError> {
    if token_mint.spec_is_zero() {
        Err(CustomError::InvalidTokenAddress)
    } else {
        match derived_identity(program_id@, CONTROLLER_SEED@) {
            Some((_, bump)) => Ok(bump),
            None => Err(CustomError::InvalidProgramId),
        }
    }
}

/// What `initialize_derived` answers for the component `program_id` and the
/// asset `token_mint`, given the capability that was derived for the hub: its
/// bump seed, or the reason for which the call is rejected. A capability of
/// another deriver or under another label is as good as none.
pub open spec fn initialize_check_derived(
    program_id: Identity,
    token_mint: Identity,
    authority: Option<Capability>,
) -> Result<u8, CustomError> {
    if token_mint.spec_is_zero() {
        Err(CustomError::InvalidTokenAddress)
    } else {
        match authority {
            Some(capability) => if capability.spec_deriver() == program_id && capability.spec_label()
                == CONTROLLER_SEED@ {
                Ok(capability.spec_bump())
            } else {
                Err(CustomError::InvalidProgramId)
            },
            None => Err(CustomError::InvalidProgramId),
        }
    }
}

/// Creates the authority hub of the component `program_id` for the asset
/// `token_mint`, owned by `payer`, around the capability that was derived for
/// it: no registry, no delegate, no handoff pending. The zero identity is
/// refused as the asset, and so is a missing capability or one that
/// `program_id` did not derive under `CONTROLLER_SEED`.
pub fn initialize_derived(
    program_id: Identity,
    payer: Identity,
    token_mint: Identity,
    authority: Option<Capability>,
) -> (r: Result<(AuthorityHub, ControllerInitialized), CustomError>)
    ensures
        match r {
            Ok((hub, event)) => {
                &&& initialize_check_derived(program_id, token_mint, authority) == Ok::<_, CustomError>(
                    hub.store.bump,
                )
                &&& Some(hub.authority) == authority
                &&& hub.program_id == program_id
                &&& hub.store.token_mint == token_mint
                &&& hub.store.owner == payer
                &&& hub.store.members.spec_is_zero()
                &&& hub.store.factory.spec_is_zero()
                &&& hub.store.pending_owner.spec_is_zero()
                &&& hub.store.pending_mint_authority.spec_is_zero()
                &&& hub.wf()
                &&& event == (ControllerInitialized { token_mint, owner: payer })
            },
            Err(e) => initialize_check_derived(program_id, token_mint, authority) == Err::<u8, _>(e),
        },
{
    if token_mint.is_zero() {
        return Err(CustomError::InvalidTokenAddress);
    }
    let authority = match authority {
        Some(authority) => authority,
        None => {
            return Err(CustomError::InvalidProgramId);
        },
    };
    if !authority.is_derived_from(&program_id, CONTROLLER_SEED) {
        return Err(CustomError::InvalidProgramId);
    }
    let store = ControllerStore {
        bump: authority.bump(),
        token_mint,
        members: Identity::zero(),
        factory: Identity::zero(),
        owner: payer,
        pending_owner: Identity::zero(),
        pending_mint_authority: Identity::zero(),
    };
    Ok((AuthorityHub { program_id, store, authority }, ControllerInitialized { token_mint, owner: payer }))
}

/// Creates the authority hub of the component `program_id` for the asset
/// `token_mint`, owned by `payer`: no registry, no delegate, no handoff
/// pending. The hub derives its own capability under `CONTROLLER_SEED`. The
/// zero identity is refused as the asset.
pub fn initialize(program_id: Identity, payer: Identity, token_mint: Identity) -> (r: Result<
    (AuthorityHub, ControllerInitialized),
    CustomError,
>)
    ensures
        match r {
            Ok((hub, event)) => {
                &&& initialize_check(program_id, token_mint) == Ok::<_, CustomError>(hub.store.bump)
                &&& hub.program_id == program_id
                &&& hub.store.token_mint == token_mint
                &&& hub.store.owner == payer
                &&& hub.store.members.spec_is_zero()
                &&& hub.store.factory.spec_is_zero()
                &&& hub.store.pending_owner.spec_is_zero()
                &&& hub.store.pending_mint_authority.spec_is_zero()
                &&& hub.wf()
                &&& event == (ControllerInitialized { token_mint, owner: payer })
            },
            Err(e) => initialize_check(program_id, token_mint) == Err::<u8, _>(e),
        },
{
    let authority = Capability::derive(&program_id, CONTROLLER_SEED);
    initialize_derived(program_id, payer, token_mint, authority)
}

} // verus!
