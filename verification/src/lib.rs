//! # Settlement
//!
//! A verified settlement contract: merchant registration, settlement rules,
//! fee splitting and the record of every payment.
//!
//! The contract runs against an [`Env`](env::Env): the entries of its storage
//! with their lifetimes, the ledger it runs in, the addresses that authorised
//! the call, and a journal of everything the host has to carry out. Every
//! method of [`SettlementContract`](contract::SettlementContract) either
//! refuses, and then leaves the environment as it was, or performs exactly the
//! effects its contract names.
pub mod address;
pub mod contents;
pub mod contract;
pub mod effects;
pub mod env;
pub mod fees;
pub mod history;
pub mod laws;
pub mod model;
pub mod table;
pub mod types;
