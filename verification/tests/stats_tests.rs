use txlat::records::{FinalStatus, LatencyRecord};
use txlat::stats::{phase_stats, summarize, PhaseStats};

fn record(send: u64, confirm: u64, total: u64) -> LatencyRecord {
    LatencyRecord {
        id: vec![0x11, 0x22],
        send_ms: send,
        confirm_ms: confirm,
        total_ms: total,
        status: FinalStatus::Success,
    }
}

#[test]
fn empty_batch_yields_all_zero_statistics() {
    let st = phase_stats(&Vec::new());
    assert_eq!(st, PhaseStats { min_ms: 0, max_ms: 0, avg_ms: 0 });

    let summary = summarize(Vec::new());
    assert_eq!(summary.records.len(), 0);
    assert_eq!(summary.send, PhaseStats { min_ms: 0, max_ms: 0, avg_ms: 0 });
    assert_eq!(summary.confirm, PhaseStats { min_ms: 0, max_ms: 0, avg_ms: 0 });
    assert_eq!(summary.total, PhaseStats { min_ms: 0, max_ms: 0, avg_ms: 0 });
}

#[test]
fn average_is_truncating_integer_mean() {
    let st = phase_stats(&vec![10, 20, 25]);
    assert_eq!(st.min_ms, 10);
    assert_eq!(st.max_ms, 25);
    // floor(55 / 3) = 18, not 18.33 rounded.
    assert_eq!(st.avg_ms, 18);
}

#[test]
fn single_value_statistics() {
    let st = phase_stats(&vec![7]);
    assert_eq!(st, PhaseStats { min_ms: 7, max_ms: 7, avg_ms: 7 });
}

#[test]
fn statistics_per_phase_are_independent() {
    let records = vec![record(10, 100, 110), record(20, 50, 70), record(25, 60, 85)];
    let summary = summarize(records);
    assert_eq!(summary.records.len(), 3);
    assert_eq!(summary.send, PhaseStats { min_ms: 10, max_ms: 25, avg_ms: 18 });
    assert_eq!(summary.confirm, PhaseStats { min_ms: 50, max_ms: 100, avg_ms: 70 });
    assert_eq!(summary.total, PhaseStats { min_ms: 70, max_ms: 110, avg_ms: 88 });
}

#[test]
fn summary_keeps_record_order() {
    let records = vec![record(1, 2, 3), record(4, 5, 6)];
    let summary = summarize(records.clone());
    assert_eq!(summary.records, records);
}

#[test]
fn largest_durations_do_not_overflow() {
    let st = phase_stats(&vec![u64::MAX, u64::MAX]);
    assert_eq!(st.min_ms, u64::MAX);
    assert_eq!(st.max_ms, u64::MAX);
    assert_eq!(st.avg_ms, u64::MAX);
}
