use vstd::prelude::*;
use crate::controller::errors::CustomError;
use crate::controller::events::MintAuthorityTransferStarted;
use crate::controller::state::ControllerStore;
use crate::controller::AuthorityHub;
use crate::identity::Identity;

verus! {

/// The arguments of `transfer_mint_authority`.
#[derive(Clone, Copy, Debug, PartialEq, Eq)]
pub struct TransferMintAuthorityParams {
    pub new_authority: Identity,
}

/// What `transfer_mint_authority` answers to `owner` on `store`.
pub open spec fn transfer_mint_authority_check(store: ControllerStore, owner: Identity, params: TransferMintAuthorityParams) -> Result<(), CustomError> {
    if !store.spec_is_owner(owner) {
        Err(CustomError::Unauthorized)
    } else if params.new_authority.spec_is_zero() {
        Err(CustomError::InvalidPendingAuthority)
    } else {
        Ok(())
    }
}

/// Starts a handoff of the asset's mint authority to `params.new_authority`.
/// Only the owner may, and the zero identity is refused. The ledger's binding
/// stays as it is until the new authority claims. A rejected call changes
/// nothing.
pub fn transfer_mint_authority(hub: &mut AuthorityHub, owner: Identity, params: TransferMintAuthorityParams) -> (r: Result<MintAuthorityTransferStarted, CustomError>)
    ensures
        match r {
            Ok(event) => {
                &&& transfer_mint_authority_check(old(hub).store, owner, params) is Ok
                &&& *final(hub) == (AuthorityHub {
                    store: ControllerStore { pending_mint_authority: params.new_authority, ..old(hub).store },
                    ..*old(hub)
                })
                &&& event == (MintAuthorityTransferStarted { token_mint: old(hub).store.token_mint, new_authority: params.new_authority })
            },
            Err(e) => {
                &&& transfer_mint_authority_check(old(hub).store, owner, params) == Err::<(), _>(e)
                &&& *final(hub) == *old(hub)
            },
        },
        old(hub).wf() ==> final(hub).wf(),
{
    if !hub.store.is_owner(&owner) {
        return Err(CustomError::Unauthorized);
    }
    if params.new_authority.is_zero() {
        return Err(CustomError::InvalidPendingAuthority);
    }
    hub.store.pending_mint_authority = params.new_authority;
    Ok(MintAuthorityTransferStarted { token_mint: hub.store.token_mint, new_authority: params.new_authority })
}

} // verus!
