use indexer::runner::next_directive;
use indexer::runner::RunDirective;
use indexer::runner::Runner;
use indexer::runner::StepOutcome;
use indexer::runner::BACKOFF_SECS;
use indexer::SyncError;
use rust_decimal::Decimal;

/// One insert step as the unverified driver performs it, against an
/// in-memory chain (block `n` exists iff `n < chain_height`) and an
/// in-memory store of persisted block numbers.
fn drive_step(
    runner: &mut Runner,
    chain_height: u64,
    store: &mut Vec<u64>,
) -> Result<bool, SyncError> {
    let row = if runner.has_cached_tip() {
        None
    } else {
        store.iter().max().map(|&n| Decimal::from(n))
    };
    let tip = runner.tip(row);
    assert!(tip != Some(u64::MAX));
    let next = runner.next_block_number();
    let outcome = if next < chain_height {
        store.push(next);
        StepOutcome::Written
    } else {
        StepOutcome::NotProduced
    };
    runner.insert(next, outcome)
}

#[test]
fn empty_store_first_block_is_zero() {
    let mut runner = Runner::new();
    assert!(!runner.has_cached_tip());
    assert_eq!(runner.tip(None), None);
    assert_eq!(runner.next_block_number(), 0);
}

#[test]
fn cold_start_recovers_stored_tip() {
    let mut runner = Runner::new();
    assert_eq!(runner.tip(Some(Decimal::from(41u64))), Some(41));
    assert_eq!(runner.next_block_number(), 42);
    // The discovered tip is cached: storage is not consulted again.
    assert!(runner.has_cached_tip());
    assert_eq!(runner.tip(None), Some(41));
}

#[test]
fn warm_tip_ignores_storage_row() {
    let mut runner = Runner::new();
    assert_eq!(runner.tip(Some(Decimal::from(10u64))), Some(10));
    assert_eq!(runner.tip(Some(Decimal::from(99u64))), Some(10));
}

#[test]
fn decimal_row_decodes_exactly() {
    let mut runner = Runner::new();
    assert_eq!(runner.tip(Some(Decimal::from(7u64))), Some(7));

    let mut at_max = Runner::new();
    assert_eq!(at_max.tip(Some(Decimal::from(u64::MAX))), Some(u64::MAX));
}

#[test]
fn decimal_row_fractional_part_is_truncated() {
    let mut runner = Runner::new();
    // 3.5 in the column reads back as counter 3.
    assert_eq!(runner.tip(Some(Decimal::new(35, 1))), Some(3));
}

#[test]
fn decimal_row_out_of_range_means_no_tip() {
    let mut negative = Runner::new();
    assert_eq!(negative.tip(Some(Decimal::from(-3i64))), None);
    assert_eq!(negative.next_block_number(), 0);

    let mut too_large = Runner::new();
    let beyond = Decimal::from_i128_with_scale(u64::MAX as i128 + 1, 0);
    assert_eq!(too_large.tip(Some(beyond)), None);
}

#[test]
fn update_tip_overwrites() {
    let mut runner = Runner::new();
    assert!(runner.update_tip(17).is_ok());
    assert_eq!(runner.tip(None), Some(17));
    assert!(runner.update_tip(4).is_ok());
    assert_eq!(runner.tip(None), Some(4));
}

#[test]
fn bump_tip_starts_at_zero_then_increments() {
    let mut runner = Runner::new();
    assert!(runner.bump_tip().is_ok());
    assert_eq!(runner.tip(None), Some(0));

    let mut warm = Runner::new();
    assert!(warm.update_tip(5).is_ok());
    assert!(warm.bump_tip().is_ok());
    assert_eq!(warm.tip(None), Some(6));
}

#[test]
fn monotonic_tip_over_successful_inserts() {
    let mut runner = Runner::new();
    let mut store: Vec<u64> = Vec::new();
    let mut seen: Vec<u64> = Vec::new();
    for _ in 0..3 {
        assert_eq!(drive_step(&mut runner, 3, &mut store), Ok(true));
        seen.push(runner.tip(None).expect("tip exists after a successful insert"));
    }
    assert_eq!(seen, vec![0, 1, 2]);
    for w in seen.windows(2) {
        assert_eq!(w[1], w[0] + 1);
    }
}

#[test]
fn no_new_block_leaves_tip_unchanged() {
    let mut runner = Runner::new();
    assert!(runner.update_tip(5).is_ok());
    for _ in 0..3 {
        assert_eq!(runner.insert(6, StepOutcome::NotProduced), Ok(false));
        assert_eq!(runner.tip(None), Some(5));
    }
}

#[test]
fn progress_advances_tip_and_store_gains_one_row() {
    let mut runner = Runner::new();
    let mut store: Vec<u64> = vec![0, 1, 2];
    assert_eq!(drive_step(&mut runner, 4, &mut store), Ok(true));
    assert_eq!(runner.tip(None), Some(3));
    assert_eq!(store.iter().filter(|&&n| n == 3).count(), 1);
    assert_eq!(store, vec![0, 1, 2, 3]);
}

#[test]
fn transport_error_is_fatal_and_annotated() {
    let mut runner = Runner::new();
    assert!(runner.update_tip(8).is_ok());
    let outcome = StepOutcome::TransportFailed {
        cause: String::from("connection refused"),
    };
    let err = SyncError::Transport {
        block_number: 9,
        cause: String::from("connection refused"),
    };
    assert_eq!(runner.insert(9, outcome), Err(err));
    assert_eq!(runner.tip(None), Some(8));
}

#[test]
fn storage_error_variant() {
    let mut runner = Runner::new();
    let outcome = StepOutcome::WriteFailed {
        cause: String::from("write timed out"),
    };
    let err = SyncError::Storage {
        block_number: 0,
        cause: String::from("write timed out"),
    };
    assert_eq!(runner.insert(0, outcome), Err(err));
    assert_eq!(runner.tip(None), None);
}

#[test]
fn conversion_error_variant() {
    let mut runner = Runner::new();
    let outcome = StepOutcome::ConversionFailed {
        cause: String::from("unknown block version"),
    };
    let err = SyncError::Conversion {
        block_number: 0,
        cause: String::from("unknown block version"),
    };
    assert_eq!(runner.insert(0, outcome), Err(err));
}

#[test]
fn error_carries_block_number() {
    let transport = SyncError::Transport {
        block_number: 12,
        cause: String::from("x"),
    };
    let storage = SyncError::Storage {
        block_number: 13,
        cause: String::from("x"),
    };
    let conversion = SyncError::Conversion {
        block_number: 14,
        cause: String::from("x"),
    };
    assert_eq!(transport.block_number(), 12);
    assert_eq!(storage.block_number(), 13);
    assert_eq!(conversion.block_number(), 14);
}

#[test]
fn example_scenario() {
    // Store empty, chain has blocks 0, 1, 2 and then nothing.
    let mut runner = Runner::new();
    let mut store: Vec<u64> = Vec::new();
    assert_eq!(drive_step(&mut runner, 3, &mut store), Ok(true));
    assert_eq!(drive_step(&mut runner, 3, &mut store), Ok(true));
    assert_eq!(drive_step(&mut runner, 3, &mut store), Ok(true));
    assert_eq!(runner.tip(None), Some(2));
    assert_eq!(drive_step(&mut runner, 3, &mut store), Ok(false));
    assert_eq!(runner.tip(None), Some(2));
    assert_eq!(store, vec![0, 1, 2]);
}

#[test]
fn directive_mapping() {
    assert_eq!(next_directive(&Ok(true)), RunDirective::Continue);
    assert_eq!(next_directive(&Ok(false)), RunDirective::SleepThenContinue);
    let err: Result<bool, SyncError> = Err(SyncError::Transport {
        block_number: 1,
        cause: String::from("down"),
    });
    assert_eq!(next_directive(&err), RunDirective::Stop);
}

#[test]
fn backoff_interval_is_three_seconds() {
    assert_eq!(BACKOFF_SECS, 3);
}
