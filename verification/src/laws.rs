//! The guarantees of the sync state machine, stated over the same spec
//! functions that the runner's contracts use.

use vstd::prelude::*;

use crate::error::SyncError;
use crate::decimal::u64_of_decimal;
use crate::runner::insert_result;
use crate::runner::next_of;
use crate::runner::resolved_tip;
use crate::runner::successful_step;
use crate::runner::tip_after;
use crate::runner::StepOutcome;

verus! {

/// Monotonic tip: along any run of successful inserts the tip exists after
/// every step, advances by exactly one per step, and strictly increases —
/// it never decreases.
pub proof fn lemma_tip_monotonic(tips: Seq<Option<u64>>)
    requires
        forall|i: int, j: int|
            0 <= i && j == i + 1 && j < tips.len() ==> #[trigger] successful_step(tips[i], tips[j]),
    ensures
        forall|j: int| 1 <= j < tips.len() ==> #[trigger] tips[j] is Some,
        forall|i: int, j: int|
            0 <= i && j == i + 1 && j < tips.len() && #[trigger] tips[i] is Some
                ==> #[trigger] tips[j] is Some && tips[j].unwrap() == tips[i].unwrap() + 1,
        forall|i: int, j: int|
            0 <= i < j < tips.len() && #[trigger] tips[i] is Some ==> #[trigger] tips[j] is Some
                && tips[i].unwrap() < tips[j].unwrap(),
{
    assert forall|j: int| 1 <= j < tips.len() implies #[trigger] tips[j] is Some by {
        assert(successful_step(tips[j - 1], tips[j]));
    }
    assert forall|i: int, j: int|
        0 <= i && j == i + 1 && j < tips.len() && #[trigger] tips[i] is Some implies
            #[trigger] tips[j] is Some && tips[j].unwrap() == tips[i].unwrap() + 1 by {
        assert(successful_step(tips[i], tips[j]));
    }
    assert forall|i: int, j: int|
        0 <= i < j < tips.len() && #[trigger] tips[i] is Some implies #[trigger] tips[j] is Some
            && tips[i].unwrap() < tips[j].unwrap() by {
        lemma_tip_strictly_increases(tips, i, j);
    }
}

/// The induction behind [`lemma_tip_monotonic`]: each step adds one, so the
/// tip at a later position is strictly above the tip at an earlier one.
proof fn lemma_tip_strictly_increases(tips: Seq<Option<u64>>, i: int, j: int)
    requires
        forall|k: int, l: int|
            0 <= k && l == k + 1 && l < tips.len() ==> #[trigger] successful_step(tips[k], tips[l]),
        0 <= i < j < tips.len(),
        tips[i] is Some,
    ensures
        tips[j] is Some,
        tips[i].unwrap() < tips[j].unwrap(),
    decreases j - i,
{
    assert(successful_step(tips[j - 1], tips[j]));
    if i + 1 < j {
        lemma_tip_strictly_increases(tips, i, j - 1);
    }
}

/// Cold-start recovery: with no cached tip, one resolution against a storage
/// row that decodes to `n` arrives at tip `n` directly — nothing is
/// re-derived from block 0.
pub proof fn lemma_cold_start_recovery(row: rust_decimal::Decimal, n: u64)
    requires
        u64_of_decimal(row) == Option::Some(n),
    ensures
        resolved_tip(Option::None, Option::Some(row)) == Option::Some(n),
{
}

/// Warm resolution: once a tip is cached, resolution answers from the cache,
/// whatever the store would say.
pub proof fn lemma_warm_tip_ignores_storage(t: u64, row: Option<rust_decimal::Decimal>)
    ensures
        resolved_tip(Option::Some(t), row) == Option::Some(t),
{
}

/// Empty-store start: with nothing cached and no stored row, the resolved
/// tip is absent and the first computed next-block-number is `0`.
pub proof fn lemma_empty_store_start()
    ensures
        resolved_tip(Option::None, Option::None) is None,
        next_of(resolved_tip(Option::None, Option::None)) == 0,
{
}

/// No-new-block idempotence: however often the chain answers "not produced"
/// for the requested height, the step reports `false` and the tip keeps
/// whatever value it had.
pub proof fn lemma_no_new_block_idempotence(cached: Option<u64>, requested: u64)
    ensures
        insert_result(requested, StepOutcome::NotProduced) == Result::<bool, SyncError>::Ok(false),
        tip_after(cached, requested, StepOutcome::NotProduced) == cached,
{
}

/// Progress signal: a successful insert of the requested block moves the
/// cached tip to exactly that block number and reports progress.
pub proof fn lemma_progress_advances_tip(cached: Option<u64>, requested: u64)
    requires
        requested == next_of(cached),
    ensures
        insert_result(requested, StepOutcome::Written) == Result::<bool, SyncError>::Ok(true),
        tip_after(cached, requested, StepOutcome::Written) == Option::Some(requested),
        successful_step(cached, tip_after(cached, requested, StepOutcome::Written)),
{
}

/// Fatal propagation: a transport failure on the requested height becomes the
/// transport error annotated with exactly that block number and cause, and
/// the tip keeps its pre-call value — no partial advance.
pub proof fn lemma_fatal_propagation(cached: Option<u64>, requested: u64, cause: String)
    ensures
        insert_result(requested, (StepOutcome::TransportFailed { cause })) == Result::<bool, SyncError>::Err(
            (SyncError::Transport { block_number: requested, cause }),
        ),
        tip_after(cached, requested, (StepOutcome::TransportFailed { cause })) == cached,
{
}

/// Fatal propagation for the other failure kinds: storage and conversion
/// failures become their own error variants, annotated the same way, and
/// leave the tip untouched.
pub proof fn lemma_fatal_propagation_other_kinds(cached: Option<u64>, requested: u64, cause: String)
    ensures
        insert_result(requested, (StepOutcome::WriteFailed { cause })) == Result::<bool, SyncError>::Err(
            (SyncError::Storage { block_number: requested, cause }),
        ),
        insert_result(requested, (StepOutcome::ConversionFailed { cause })) == Result::<bool, SyncError>::Err(
            (SyncError::Conversion { block_number: requested, cause }),
        ),
        tip_after(cached, requested, (StepOutcome::WriteFailed { cause })) == cached,
        tip_after(cached, requested, (StepOutcome::ConversionFailed { cause })) == cached,
{
}

} // verus!
