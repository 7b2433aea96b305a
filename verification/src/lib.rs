//! Verified core of a block-mirroring indexer.
//!
//! The library owns the sync state machine: it tracks the tip (the highest
//! block number known to be durably stored), decides which block to request
//! next, and classifies the outcome of each fetch-and-persist step. All
//! input/output — the chain RPC transport, the relational store, the back-off
//! sleep — is performed by an unverified driver that feeds plain values into
//! these verified decision functions and carries out the actions they return.

pub mod decimal;
pub mod error;
pub mod laws;
pub mod runner;

pub use error::SyncError;
pub use runner::Runner;
