//! The sync state machine.
//!
//! `Runner` owns the only mutable state of the system: the cached tip, the
//! number of the highest block known to be durably stored. One logical
//! `insert` step of the sync loop is driven as follows by the unverified
//! driver:
//!
//! 1. If `has_cached_tip` is false, query the store for its highest block row
//!    and hand it to [`Runner::tip`]; otherwise call [`Runner::tip`] with no
//!    row. This resolves (and caches) the tip.
//! 2. Ask [`Runner::next_block_number`] which block to request.
//! 3. Fetch that block from the chain source, convert and persist it when
//!    present, and summarise what happened as a [`StepOutcome`].
//! 4. Hand the outcome to [`Runner::insert`], which classifies it, advances
//!    the tip on success, and reports progress or the fatal error.
//! 5. Feed the result to [`next_directive`] to learn whether to loop again
//!    immediately, to back off for [`BACKOFF_SECS`] seconds first, or to stop.

use vstd::prelude::*;

use crate::decimal::decimal_to_u64;
use crate::decimal::u64_of_decimal;
use crate::error::SyncError;

verus! {

/// Seconds the run loop waits before retrying when the chain has not
/// produced the next block yet.
pub const BACKOFF_SECS: u64 = 3;

/// What the driver observed while fetching the requested block and, when the
/// chain had produced it, converting and persisting it. Each failure carries
/// a rendered description of the underlying cause.
#[derive(Debug, Clone, PartialEq, Eq)]
pub enum StepOutcome {
    /// The chain source could not be reached or answered malformed data.
    TransportFailed { cause: String },
    /// The chain has not produced a block at the requested height yet.
    NotProduced,
    /// The fetched raw block could not be mapped to the domain model.
    ConversionFailed { cause: String },
    /// The storage engine failed to persist the converted block.
    WriteFailed { cause: String },
    /// The block was fetched, converted and durably written.
    Written,
}

/// What the run loop must do after one insert step.
#[derive(Debug, Clone, Copy, PartialEq, Eq, Structural)]
pub enum RunDirective {
    /// Progress was made: loop again immediately to drain the backlog.
    Continue,
    /// No new block yet: wait [`BACKOFF_SECS`] seconds, then loop again.
    SleepThenContinue,
    /// A fatal error: propagate it and terminate the loop.
    Stop,
}

/// The sync position. The cached tip is absent until it has been resolved
/// from storage (or established by a first successful insert), and it only
/// ever moves forward.
pub struct Runner {
    local_tip: Option<u64>,
}

/// The block number to request next: one past the tip, or `0` when nothing
/// has been synced yet.
pub open spec fn next_of(tip: Option<u64>) -> int {
    match tip {
        Option::None => 0,
        Option::Some(t) => t + 1,
    }
}

/// The tip encoded in the store's answer to the highest-block query: absent
/// when the store is empty or its decimal does not fit a `u64` counter.
pub open spec fn row_tip(row: Option<rust_decimal::Decimal>) -> Option<u64> {
    match row {
        Option::None => Option::None,
        Option::Some(d) => u64_of_decimal(d),
    }
}

/// The tip that one resolution step arrives at: the cached value when warm,
/// otherwise whatever the storage row encodes.
pub open spec fn resolved_tip(cached: Option<u64>, row: Option<rust_decimal::Decimal>) -> Option<u64> {
    match cached {
        Option::Some(t) => Option::Some(t),
        Option::None => row_tip(row),
    }
}

/// How one insert step reports: progress, calm "no new block", or the fatal
/// error for the requested block number, by outcome.
pub open spec fn insert_result(requested: u64, outcome: StepOutcome) -> Result<bool, SyncError> {
    match outcome {
        StepOutcome::TransportFailed { cause } => (Result::Err(SyncError::Transport { block_number: requested, cause })),
        StepOutcome::NotProduced => Result::Ok(false),
        StepOutcome::ConversionFailed { cause } => (Result::Err(SyncError::Conversion { block_number: requested, cause })),
        StepOutcome::WriteFailed { cause } => (Result::Err(SyncError::Storage { block_number: requested, cause })),
        StepOutcome::Written => Result::Ok(true),
    }
}

/// Where the cached tip stands after one insert step: advanced to the
/// requested block exactly when that block was durably written.
pub open spec fn tip_after(cached: Option<u64>, requested: u64, outcome: StepOutcome) -> Option<u64> {
    if outcome is Written {
        Option::Some(requested)
    } else {
        cached
    }
}

/// One successful insert as a relation between the tip before and after it:
/// the tip becomes exactly the next block number.
pub open spec fn successful_step(pre: Option<u64>, post: Option<u64>) -> bool {
    &&& next_of(pre) <= u64::MAX
    &&& post == Option::Some(next_of(pre) as u64)
}

/// What the run loop does with the result of one insert step: immediate loop
/// on progress, back-off on "no new block", termination on any error.
pub open spec fn directive_of(step: Result<bool, SyncError>) -> RunDirective {
    match step {
        Result::Ok(made_progress) => if made_progress {
            RunDirective::Continue
        } else {
            RunDirective::SleepThenContinue
        },
        Result::Err(_) => RunDirective::Stop,
    }
}

impl Runner {
    /// The cached tip as the contracts see it.
    pub closed spec fn cached(&self) -> Option<u64> {
        self.local_tip
    }

    /// A fresh runner knows nothing: the tip is resolved lazily from storage.
    pub fn new() -> (r: Runner)
        ensures
            r.cached() is None,
    {
        Runner { local_tip: Option::None }
    }

    /// Whether the tip is already known, so the driver can skip the storage
    /// query.
    pub fn has_cached_tip(&self) -> (r: bool)
        ensures
            r == (self.cached() is Some),
    {
        match self.local_tip {
            Option::Some(_) => true,
            Option::None => false,
        }
    }

    /// The last synced block number, or `None` when nothing is synced yet.
    ///
    /// `stored_row` is the store's answer to the highest-block query; the
    /// driver must pass the true answer whenever no tip is cached (it is
    /// ignored otherwise). A cold runner caches what it discovers, so storage
    /// is not queried again once the tip is known.
    pub fn tip(&mut self, stored_row: Option<rust_decimal::Decimal>) -> (r: Option<u64>)
        ensures
            r == resolved_tip(old(self).cached(), stored_row),
            final(self).cached() == r,
    {
        match self.local_tip {
            Option::Some(t) => Option::Some(t),
            Option::None => {
                let discovered: Option<u64> = match stored_row {
                    Option::Some(d) => decimal_to_u64(&d),
                    Option::None => Option::None,
                };
                self.local_tip = discovered;
                discovered
            }
        }
    }

    /// Overwrite the cached tip with a known position.
    pub fn update_tip(&mut self, tip_number: u64) -> (r: Result<(), SyncError>)
        ensures
            r is Ok,
            final(self).cached() == Option::Some(tip_number),
    {
        self.local_tip = Option::Some(tip_number);
        Result::Ok(())
    }

    /// Advance the tip after a confirmed durable write: to `0` when nothing
    /// was synced before (block 0 has now been synced), else by exactly one.
    pub fn bump_tip(&mut self) -> (r: Result<(), SyncError>)
        requires
            old(self).cached() matches Some(t) ==> t < u64::MAX,
        ensures
            r is Ok,
            final(self).cached() == Option::Some(next_of(old(self).cached()) as u64),
    {
        match self.local_tip {
            Option::None => {
                self.local_tip = Option::Some(0);
            }
            Option::Some(t) => {
                self.local_tip = Option::Some(t + 1);
            }
        }
        Result::Ok(())
    }

    /// The block number to request from the chain source: one past the tip,
    /// or `0` when nothing has been synced yet. The driver must resolve the
    /// tip (see [`Runner::tip`]) before asking.
    pub fn next_block_number(&self) -> (r: u64)
        requires
            self.cached() matches Some(t) ==> t < u64::MAX,
        ensures
            r == next_of(self.cached()),
    {
        match self.local_tip {
            Option::None => 0,
            Option::Some(t) => t + 1,
        }
    }

    /// Complete one sync step for block `requested`, given what the driver
    /// observed. A written block advances the tip to exactly `requested` and
    /// reports progress; "not produced" reports calm no-progress; any failure
    /// becomes the matching fatal error annotated with `requested` and the
    /// cause, and leaves the tip at its pre-call value.
    pub fn insert(&mut self, requested: u64, outcome: StepOutcome) -> (r: Result<bool, SyncError>)
        requires
            requested == next_of(old(self).cached()),
        ensures
            r == insert_result(requested, outcome),
            final(self).cached() == tip_after(old(self).cached(), requested, outcome),
            outcome is Written ==> successful_step(old(self).cached(), final(self).cached()),
    {
        match outcome {
            StepOutcome::TransportFailed { cause } => {
                Result::Err(SyncError::Transport { block_number: requested, cause })
            }
            StepOutcome::NotProduced => Result::Ok(false),
            StepOutcome::ConversionFailed { cause } => {
                Result::Err(SyncError::Conversion { block_number: requested, cause })
            }
            StepOutcome::WriteFailed { cause } => {
                Result::Err(SyncError::Storage { block_number: requested, cause })
            }
            StepOutcome::Written => {
                match self.bump_tip() {
                    Result::Ok(()) => Result::Ok(true),
                    Result::Err(e) => Result::Err(e),
                }
            }
        }
    }
}

/// Decide what the run loop does next from the result of one insert step.
pub fn next_directive(step: &Result<bool, SyncError>) -> (r: RunDirective)
    ensures
        r == directive_of(*step),
{
    match step {
        Result::Ok(made_progress) => {
            if *made_progress {
                RunDirective::Continue
            } else {
                RunDirective::SleepThenContinue
            }
        }
        Result::Err(_) => RunDirective::Stop,
    }
}

} // verus!
