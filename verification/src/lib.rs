//! Ephemeral vault lifecycle library.
//!
//! A long-lived parent wallet stands up a short-lived, delegated vault so an
//! autonomous agent can execute bounded financial operations without touching
//! the parent's master key. This crate holds the verified core: the on-ledger
//! vault state machine, ephemeral-key custody, the delegation capability
//! protocol, the funding-sizing calculation, the submission retry policy, and
//! the background monitor's sweep planning.

pub mod errors;
pub mod funding;
pub mod keys;
pub mod vault;
pub mod custody;
pub mod session;
pub mod manager;
pub mod delegation;
pub mod retry;
pub mod monitor;
pub mod signer;
