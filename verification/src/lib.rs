//! A pluggable protocol-extension dispatcher for an in-process,
//! deterministic chain-style execution environment, together with a
//! token-factory ledger application that exercises it.
//!
//! Independent applications declare the message and query identifiers
//! they own; a registry rejects overlapping ownership; a dispatcher
//! routes each incoming call to the single owning application, loads
//! that application's namespaced state before the call and persists it
//! only when the call succeeds.

pub mod bank;
pub mod deploy;
pub mod errors;
pub mod functions;
pub mod helper;
pub mod multi_stargate_module;
pub mod multi_test_helper;
pub mod proto;
pub mod router;
pub mod storage;
pub mod token_factory;
pub mod traits;
pub mod utils;
