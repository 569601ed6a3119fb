//! Orchestration and coordination logic of a Zcash development network:
//! readiness probing, the bootstrap sequence, block production, access to the
//! shared wallet, and the fee-aware shield and send flows.

pub mod api;
pub mod balance;
pub mod bootstrap;
pub mod compose;
pub mod config;
pub mod coordinator;
pub mod indexer;
pub mod mining;
pub mod probe;
pub mod protocol;
pub mod seed;
pub mod service;
pub mod smoke;
pub mod sync_job;
pub mod text;
pub mod validation;
