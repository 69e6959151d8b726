//! Gift-card ledger: issuing, accepting and redeeming monetary gift cards,
//! with the lifecycle rules and the debit protocol proved against their
//! contracts.
pub mod model;
pub mod ledger;
pub mod error;
pub mod validation;
pub mod config;
pub mod qr;
pub mod service;
mod trusted;
