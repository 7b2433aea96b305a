//! The failure taxonomy of a sync step.
//!
//! Every error is fatal to the run loop: the driver propagates it and lets an
//! external supervisor restart the process. Each error carries the block
//! number under attempt and a rendered description of the underlying cause,
//! so an operator can resume manually.

use vstd::prelude::*;

verus! {

/// Why a sync step failed. No variant is retried internally: only the
/// non-error "no new block yet" condition leads to a wait-and-retry.
#[derive(Debug, Clone, PartialEq, Eq)]
pub enum SyncError {
    /// The chain source was unreachable or returned malformed data for the
    /// requested block number.
    Transport { block_number: u64, cause: String },
    /// The storage engine failed to answer a query or to persist the block.
    Storage { block_number: u64, cause: String },
    /// The fetched raw block could not be mapped to the domain model.
    Conversion { block_number: u64, cause: String },
}

impl SyncError {
    /// The block number that was under attempt when the step failed.
    pub fn block_number(&self) -> (r: u64)
        ensures
            r == self.spec_block_number(),
    {
        match self {
            SyncError::Transport { block_number, .. } => *block_number,
            SyncError::Storage { block_number, .. } => *block_number,
            SyncError::Conversion { block_number, .. } => *block_number,
        }
    }

    /// The block number carried by any variant.
    pub open spec fn spec_block_number(&self) -> u64 {
        match self {
            SyncError::Transport { block_number, .. } => *block_number,
            SyncError::Storage { block_number, .. } => *block_number,
            SyncError::Conversion { block_number, .. } => *block_number,
        }
    }
}

} // verus!
