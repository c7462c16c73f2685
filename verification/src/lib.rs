//! A custody bridge between BTC deposits and a ledger-native asset.
//!
//! Three components work together. The role registry (`members`) keeps the
//! owner, the custodian and the merchants. The authority hub (`controller`)
//! holds the asset's mint authority and mints for its delegate alone. The
//! request engine (`factory`) keeps the merchants' BTC addresses and runs the
//! life cycle of the mint and burn requests.
//!
//! The asset ledger is no part of the library. Where a call needs the ledger,
//! one function answers with the `LedgerInstruction` to perform, and the
//! handler takes the ledger's answer and completes the call.

pub mod controller;
pub mod derivation;
pub mod digest;
pub mod factory;
pub mod identity;
pub mod ledger;
pub mod members;
