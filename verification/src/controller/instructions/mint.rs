use vstd::prelude::*;
use crate::controller::errors::CustomError;
use crate::controller::{AuthorityHub, FACTORY_SEED};
use crate::derivation::{derive_identity, derived_identity, Capability};
use crate::identity::Identity;
use crate::ledger::LedgerInstruction;

verus! {

/// The arguments of `mint`.
#[derive(Clone, Copy, Debug, PartialEq, Eq)]
pub struct MintParams {
    pub to: Identity,
    pub amount: u64,
}

/// `signer` is the identity that the hub's delegate derives under
/// `FACTORY_SEED`. With no delegate named, no identity is.
pub open spec fn is_delegate_identity(hub: AuthorityHub, signer: Identity) -> bool {
    &&& !hub.store.factory.spec_is_zero()
    &&& derived_identity(hub.store.factory@, FACTORY_SEED@) matches Some((identity, _))
    &&& identity == signer@
}

/// What `mint` answers to a caller that signs with `signer`.
pub open spec fn mint_check(hub: AuthorityHub, signer: Identity, params: MintParams) -> Result<(), CustomError> {
    if !is_delegate_identity(hub, signer) {
        Err(CustomError::Unauthorized)
    } else if params.to.spec_is_zero() {
        Err(CustomError::InvalidToAddress)
    } else {
        Ok(())
    }
}

/// The privileged mint. The caller presents the capability that it derived
/// for itself; the hub derives the identity of its delegate anew and honours
/// the call only where the two identities are equal. The zero identity is
/// refused as the recipient. Where the call is honoured, the result is the
/// credit that the asset ledger is to make, signed by the hub's own derived
/// identity. The hub itself does not change.
pub fn mint(hub: &AuthorityHub, factory_store: &Capability, params: MintParams) -> (r: Result<
    LedgerInstruction,
    CustomError,
>)
    ensures
        match r {
            Ok(instruction) => {
                &&& mint_check(*hub, factory_store.spec_identity(), params) is Ok
                &&& instruction == (LedgerInstruction::MintTo {
                    mint: hub.store.token_mint,
                    to: params.to,
                    amount: params.amount,
                    authority: hub.authority.spec_identity(),
                })
            },
            Err(e) => mint_check(*hub, factory_store.spec_identity(), params) == Err::<(), _>(e),
        },
{
    if hub.store.factory.is_zero() {
        return Err(CustomError::Unauthorized);
    }
    let presented = factory_store.identity();
    match derive_identity(&hub.store.factory, FACTORY_SEED) {
        Some((expected, _)) => {
            if !expected.same(&presented) {
                return Err(CustomError::Unauthorized);
            }
        },
        None => {
            return Err(CustomError::Unauthorized);
        },
    }
    if params.to.is_zero() {
        return Err(CustomError::InvalidToAddress);
    }
    Ok(
        LedgerInstruction::MintTo {
            mint: hub.store.token_mint,
            to: params.to,
            amount: params.amount,
            authority: hub.authority.identity(),
        },
    )
}

} // verus!
