pub mod burn;
pub mod initialize;
pub mod mint_requests;
pub mod set_custodian_btc_deposit_address;
pub mod set_merchant_btc_deposit_address;
