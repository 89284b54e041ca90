use txlat::records::{
    join_record, ConfirmationOutcome, ConfirmationStatus, FinalStatus, LatencyRecord,
    SubmissionResult, TxError,
};
use txlat::runner::{assemble_pipelined, BatchRunner};
use txlat::strategy::{RunConfig, Sequencing, StrategyKind};

fn config(count: u64, sequencing: Sequencing) -> RunConfig {
    RunConfig {
        strategy: StrategyKind::AsyncPoll,
        transaction_count: count,
        sequencing,
        poll_interval_ms: Some(100),
        confirmation_timeout_ms: None,
    }
}

fn record(tag: u8, send: u64) -> LatencyRecord {
    LatencyRecord {
        id: vec![tag],
        send_ms: send,
        confirm_ms: 2 * send,
        total_ms: 3 * send,
        status: FinalStatus::Success,
    }
}

#[test]
fn zero_count_run_is_rejected_before_any_submission() {
    match BatchRunner::new(config(0, Sequencing::Sequential), 7) {
        Err(e) => assert_eq!(e, TxError::InvalidConfiguration),
        Ok(_) => panic!("a zero-transaction run must be rejected"),
    }
}

#[test]
fn all_successful_submissions_yield_one_record_each_in_order() {
    let n = 4;
    let mut runner = BatchRunner::new(config(n, Sequencing::Sequential), 100).unwrap();
    for i in 0..n {
        assert!(!runner.is_complete());
        assert_eq!(runner.next_nonce(), 100 + i);
        runner.record_success(record(i as u8, 10 + i));
    }
    assert!(runner.is_complete());
    let summary = runner.into_summary();
    assert_eq!(summary.records.len(), 4);
    for i in 0..n {
        assert_eq!(summary.records[i as usize].id, vec![i as u8]);
    }
}

#[test]
fn failures_leave_nonce_gaps_and_produce_no_record() {
    let mut runner = BatchRunner::new(config(3, Sequencing::Sequential), 50).unwrap();
    assert_eq!(runner.next_nonce(), 50);
    runner.record_success(record(0, 10));
    assert_eq!(runner.next_nonce(), 51);
    runner.record_failure();
    // The nonce of the failed attempt is not reused.
    assert_eq!(runner.next_nonce(), 52);
    runner.record_success(record(2, 30));
    assert!(runner.is_complete());
    let summary = runner.into_summary();
    assert_eq!(summary.records.len(), 2);
    assert_eq!(summary.records[0].id, vec![0]);
    assert_eq!(summary.records[1].id, vec![2]);
}

#[test]
fn all_failed_batch_still_summarizes_to_zeroes() {
    let mut runner = BatchRunner::new(config(2, Sequencing::Sequential), 0).unwrap();
    runner.record_failure();
    runner.record_failure();
    let summary = runner.into_summary();
    assert_eq!(summary.records.len(), 0);
    assert_eq!(summary.send.min_ms, 0);
    assert_eq!(summary.send.max_ms, 0);
    assert_eq!(summary.send.avg_ms, 0);
}

fn submission(tag: u8, send: u64) -> SubmissionResult {
    SubmissionResult { id: vec![tag], send_ms: send }
}

fn confirmed(tag: u8, confirm: u64) -> ConfirmationOutcome {
    ConfirmationOutcome {
        id: vec![tag],
        status: ConfirmationStatus::Confirmed { block: Some(9), success: true },
        confirm_ms: confirm,
        block_distance: None,
    }
}

#[test]
fn pipelined_failure_at_index_two_keeps_the_other_four_in_order() {
    // Five submissions, the one at index 2 fails.
    let subs = vec![
        Some(submission(0, 10)),
        Some(submission(1, 11)),
        None,
        Some(submission(3, 13)),
        Some(submission(4, 14)),
    ];
    let outs = vec![confirmed(0, 100), confirmed(1, 101), confirmed(3, 103), confirmed(4, 104)];
    let records = assemble_pipelined(subs, outs);
    assert_eq!(records.len(), 4);
    let expected_tags = [0u8, 1, 3, 4];
    for (i, tag) in expected_tags.iter().enumerate() {
        assert_eq!(records[i].id, vec![*tag]);
        assert_eq!(records[i].send_ms, 10 + *tag as u64);
        assert_eq!(records[i].confirm_ms, 100 + *tag as u64);
        assert_eq!(records[i].total_ms, 110 + 2 * (*tag as u64));
        assert_eq!(records[i].status, FinalStatus::Success);
    }
}

#[test]
fn joining_sums_phases_and_maps_the_confirmation_status() {
    let sub = submission(5, 40);
    let mut out = confirmed(5, 60);
    out.block_distance = Some(2);
    let rec = join_record(sub, out);
    assert_eq!(rec.id, vec![5]);
    assert_eq!(rec.send_ms, 40);
    assert_eq!(rec.confirm_ms, 60);
    assert_eq!(rec.total_ms, 100);
    assert_eq!(rec.status, FinalStatus::Success);

    let failed = ConfirmationOutcome {
        id: vec![6],
        status: ConfirmationStatus::Confirmed { block: None, success: false },
        confirm_ms: 5,
        block_distance: None,
    };
    let rec = join_record(submission(6, 1), failed);
    assert_eq!(rec.status, FinalStatus::Failed);

    let unknown = ConfirmationOutcome {
        id: vec![7],
        status: ConfirmationStatus::Unknown,
        confirm_ms: 5,
        block_distance: None,
    };
    let rec = join_record(submission(7, 1), unknown);
    assert_eq!(rec.status, FinalStatus::Unknown);
}

#[test]
fn join_saturates_the_total_at_the_duration_bound() {
    let rec = join_record(submission(1, u64::MAX - 10), confirmed(1, 100));
    assert_eq!(rec.total_ms, u64::MAX);
}
