use vstd::prelude::*;
use crate::derivation::Capability;
use crate::identity::Identity;
use crate::controller::state::ControllerStore;

pub mod errors;
pub mod events;
pub mod instructions;
pub mod state;
pub mod theorems;

verus! {

/// Label under which the hub derives the identity that holds the asset's mint
/// authority.
pub const CONTROLLER_SEED: &'static str = "controller";

/// Label under which the hub's delegate derives the identity that it calls
/// `mint` with.
pub const FACTORY_SEED: &'static str = "factory";

/// The authority hub: its own identity, its singleton, and the capability
/// that it derived for itself, which signs the calls to the asset ledger.
#[derive(Debug)]
pub struct AuthorityHub {
    pub program_id: Identity,
    pub store: ControllerStore,
    pub authority: Capability,
}

impl AuthorityHub {
    /// The hub's capability is the one that the hub derives under
    /// `CONTROLLER_SEED`, the singleton carries its bump seed, and the asset
    /// is named.
    pub open spec fn wf(&self) -> bool {
        &&& self.authority.spec_deriver() == self.program_id
        &&& self.authority.spec_label() == CONTROLLER_SEED@
        &&& self.authority.spec_bump() == self.store.bump
        &&& !self.store.token_mint.spec_is_zero()
    }
}

} // verus!
