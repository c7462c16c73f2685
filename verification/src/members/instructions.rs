pub mod add_merchant;
pub mod claim_ownership;
pub mod initialize;
pub mod remove_merchant;
pub mod set_custodian;
pub mod transfer_ownership;
