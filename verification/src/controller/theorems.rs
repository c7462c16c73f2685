use vstd::prelude::*;
use crate::controller::errors::CustomError;
use crate::controller::instructions::claim_mint_authority::{
    claim_mint_authority_check, claim_mint_authority_result,
};
use crate::controller::instructions::claim_ownership::claim_ownership_check;
use crate::controller::instructions::transfer_mint_authority::{
    transfer_mint_authority_check, TransferMintAuthorityParams,
};
use crate::controller::instructions::transfer_ownership::{
    transfer_ownership_check, TransferOwnershipParams,
};
use crate::controller::state::ControllerStore;
use crate::identity::Identity;
use crate::ledger::LedgerError;

verus! {

/// The two-step handoff of the hub. After the owner has started a handoff to
/// `new_owner`, the owner is still the owner; a claim by anybody else is
/// refused with `InvalidPendingOwner`; the claim by `new_owner` is accepted;
/// and once it is, no handoff is pending, so that a second claim, by
/// `new_owner` or by anybody, is refused with `InvalidPendingOwner` as well.
pub proof fn handoff_takes_two_steps(
    store: ControllerStore,
    owner: Identity,
    new_owner: Identity,
    other: Identity,
    zero: Identity,
)
    requires
        transfer_ownership_check(store, owner, TransferOwnershipParams { new_owner }) is Ok,
        zero.spec_is_zero(),
    ensures
        ({
            let started = ControllerStore { pending_owner: new_owner, ..store };
            let claimed = ControllerStore { owner: new_owner, pending_owner: zero, ..store };
            &&& started.owner == store.owner
            &&& other != new_owner ==> claim_ownership_check(started, other) == Err::<(), _>(
                CustomError::InvalidPendingOwner,
            )
            &&& claim_ownership_check(started, new_owner) is Ok
            &&& claim_ownership_check(claimed, other) == Err::<(), _>(
                CustomError::InvalidPendingOwner,
            )
            &&& claim_ownership_check(claimed, new_owner) == Err::<(), _>(
                CustomError::InvalidPendingOwner,
            )
        }),
{
}

/// The two-step handoff of the mint authority. After the owner has started a
/// handoff to `new_authority`, a claim by anybody else is refused before the
/// ledger is asked; the claim by `new_authority` is accepted where the ledger
/// makes the reassignment, and refused with the ledger's error where it does
/// not; and once it is accepted, no handoff is pending, so that a second
/// claim is refused.
pub proof fn authority_handoff_takes_two_steps(
    store: ControllerStore,
    owner: Identity,
    new_authority: Identity,
    other: Identity,
    zero: Identity,
    refusal: LedgerError,
)
    requires
        transfer_mint_authority_check(store, owner, TransferMintAuthorityParams { new_authority }) is Ok,
        zero.spec_is_zero(),
    ensures
        ({
            let started = ControllerStore { pending_mint_authority: new_authority, ..store };
            let claimed = ControllerStore { pending_mint_authority: zero, ..store };
            &&& other != new_authority ==> claim_mint_authority_check(started, other) == Err::<(), _>(
                CustomError::InvalidPendingAuthority,
            )
            &&& claim_mint_authority_result(started, new_authority, Ok(())) is Ok
            &&& claim_mint_authority_result(started, new_authority, Err(refusal)) == Err::<(), _>(
                CustomError::Ledger(refusal),
            )
            &&& claim_mint_authority_check(claimed, other) == Err::<(), _>(
                CustomError::InvalidPendingAuthority,
            )
            &&& claim_mint_authority_check(claimed, new_authority) == Err::<(), _>(
                CustomError::InvalidPendingAuthority,
            )
        }),
{
}

} // verus!
