//! A token-gated yes/no poll coordinator.
//!
//! An administrator creates a time-boxed poll, issues single-use voting
//! passes to participants through a capability-token ledger, and each
//! participant casts at most one vote by consuming exactly one pass.
//! Every operation is verified to enforce the integrity rules: no double
//! voting, no voting outside the authorized time window, no unauthorized
//! administrative actions, and no counter overflow.

pub mod calculator;
pub mod coordinator;
pub mod errors;
pub mod laws;
pub mod ledger;
pub mod registry;
pub mod states;
pub mod system;
