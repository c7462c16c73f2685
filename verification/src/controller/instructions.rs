pub mod claim_mint_authority;
pub mod claim_ownership;
pub mod initialize;
pub mod mint;
pub mod set_factory;
pub mod set_members;
pub mod transfer_mint_authority;
pub mod transfer_ownership;
