use vstd::prelude::*;
use crate::controller::errors::CustomError;
use crate::controller::events::MintAuthorityTransferred;
use crate::controller::state::ControllerStore;
use crate::controller::AuthorityHub;
use crate::identity::Identity;
use crate::ledger::{LedgerError, LedgerInstruction};

verus! {

/// What the hub answers to `pending_authority` before the ledger is asked.
pub open spec fn claim_mint_authority_check(store: ControllerStore, pending_authority: Identity) -> Result<
    (),
    CustomError,
> {
    if store.pending_mint_authority.spec_is_zero() || store.pending_mint_authority != pending_authority {
        Err(CustomError::InvalidPendingAuthority)
    } else {
        Ok(())
    }
}

/// What `claim_mint_authority` answers to `pending_authority`, given what the
/// ledger answered to the reassignment.
pub open spec fn claim_mint_authority_result(
    store: ControllerStore,
    pending_authority: Identity,
    reassigned: Result<(), LedgerError>,
) -> Result<(), CustomError> {
    match claim_mint_authority_check(store, pending_authority) {
        Err(e) => Err(e),
        Ok(_) => match reassigned {
            Err(e) => Err(CustomError::Ledger(e)),
            Ok(_) => Ok(()),
        },
    }
}

/// The reassignment that the asset ledger is to make before
/// `claim_mint_authority` completes the handoff: from the hub's derived
/// identity to the claimant. Only the identity that the handoff names is
/// answered, and with no handoff pending nobody is.
pub fn claim_mint_authority_instruction(hub: &AuthorityHub, pending_authority: Identity) -> (r: Result<
    LedgerInstruction,
    CustomError,
>)
    ensures
        match r {
            Ok(instruction) => {
                &&& claim_mint_authority_check(hub.store, pending_authority) is Ok
                &&& instruction == (LedgerInstruction::SetMintAuthority {
                    mint: hub.store.token_mint,
                    current_authority: hub.authority.spec_identity(),
                    new_authority: pending_authority,
                })
            },
            Err(e) => claim_mint_authority_check(hub.store, pending_authority) == Err::<(), _>(e),
        },
{
    if hub.store.pending_mint_authority.is_zero() || !hub.store.pending_mint_authority.same(&pending_authority) {
        return Err(CustomError::InvalidPendingAuthority);
    }
    Ok(
        LedgerInstruction::SetMintAuthority {
            mint: hub.store.token_mint,
            current_authority: hub.authority.identity(),
            new_authority: pending_authority,
        },
    )
}

/// Completes a handoff of the mint authority. `reassigned` is what the asset
/// ledger answered to the reassignment of `claim_mint_authority_instruction`.
/// Where the claimant is the one that the handoff names and the ledger made
/// the reassignment, no handoff is pending any more. Where the ledger
/// refused, its error is handed on. A rejected call changes nothing.
pub fn claim_mint_authority(
    hub: &mut AuthorityHub,
    pending_authority: Identity,
    reassigned: Result<(), LedgerError>,
) -> (r: Result<MintAuthorityTransferred, CustomError>)
    ensures
        match r {
            Ok(event) => {
                &&& claim_mint_authority_result(old(hub).store, pending_authority, reassigned) is Ok
                &&& final(hub).store.pending_mint_authority.spec_is_zero()
                &&& final(hub).store.bump == old(hub).store.bump
                &&& final(hub).store.token_mint == old(hub).store.token_mint
                &&& final(hub).store.members == old(hub).store.members
                &&& final(hub).store.factory == old(hub).store.factory
                &&& final(hub).store.owner == old(hub).store.owner
                &&& final(hub).store.pending_owner == old(hub).store.pending_owner
                &&& final(hub).program_id == old(hub).program_id
                &&& final(hub).authority == old(hub).authority
                &&& event == (MintAuthorityTransferred {
                    token_mint: old(hub).store.token_mint,
                    new_authority: pending_authority,
                })
            },
            Err(e) => {
                &&& claim_mint_authority_result(old(hub).store, pending_authority, reassigned) == Err::<(), _>(e)
                &&& *final(hub) == *old(hub)
            },
        },
        old(hub).wf() ==> final(hub).wf(),
{
    if hub.store.pending_mint_authority.is_zero() || !hub.store.pending_mint_authority.same(&pending_authority) {
        return Err(CustomError::InvalidPendingAuthority);
    }
    match reassigned {
        Err(e) => Err(CustomError::Ledger(e)),
        Ok(_) => {
            hub.store.pending_mint_authority = Identity::zero();
            Ok(
                MintAuthorityTransferred {
                    token_mint: hub.store.token_mint,
                    new_authority: pending_authority,
                },
            )
        },
    }
}

} // verus!
