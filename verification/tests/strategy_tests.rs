use txlat::clock::LatencyClock;
use txlat::records::{
    receipt_status, single_call_record, ConfirmationStatus, FinalStatus, ReceiptInfo, TxError,
};
use txlat::strategy::{poll_step, PollStep, RunConfig, Sequencing, StrategyKind};

fn config(strategy: StrategyKind) -> RunConfig {
    RunConfig {
        strategy,
        transaction_count: 10,
        sequencing: Sequencing::Sequential,
        poll_interval_ms: Some(100),
        confirmation_timeout_ms: None,
    }
}

#[test]
fn zero_transaction_count_is_a_configuration_error() {
    let mut cfg = config(StrategyKind::AsyncPoll);
    cfg.transaction_count = 0;
    assert_eq!(cfg.validate(), Err(TxError::InvalidConfiguration));
    cfg.transaction_count = 1;
    assert_eq!(cfg.validate(), Ok(()));
}

#[test]
fn poll_delay_defaults_to_busy_poll() {
    let mut cfg = config(StrategyKind::AsyncPoll);
    assert_eq!(cfg.poll_delay_ms(), 100);
    cfg.poll_interval_ms = None;
    assert_eq!(cfg.poll_delay_ms(), 0);
}

#[test]
fn single_call_record_has_zero_confirm_and_total_equals_send() {
    let r = single_call_record(vec![0xab], 250, FinalStatus::Success);
    assert_eq!(r.confirm_ms, 0);
    assert_eq!(r.send_ms, 250);
    assert_eq!(r.total_ms, r.send_ms);
    assert_eq!(r.status, FinalStatus::Success);
}

#[test]
fn receipt_status_codes() {
    let mut receipt = ReceiptInfo {
        tx_hash: vec![0x01],
        status: Some(1),
        block_number: Some(10),
        gas_used: Some(21000),
    };
    assert_eq!(receipt_status(&receipt), FinalStatus::Success);
    receipt.status = Some(0);
    assert_eq!(receipt_status(&receipt), FinalStatus::Failed);
    receipt.status = None;
    assert_eq!(receipt_status(&receipt), FinalStatus::Unknown);
}

#[test]
fn poll_step_with_receipt_finishes() {
    let receipt = ReceiptInfo {
        tx_hash: vec![0x01],
        status: Some(1),
        block_number: Some(15),
        gas_used: Some(21000),
    };
    let step = poll_step(vec![0x01], None, Some(100), 340, Some(12), Some(receipt));
    match step {
        PollStep::Finished(outcome) => {
            assert_eq!(outcome.id, vec![0x01]);
            assert_eq!(
                outcome.status,
                ConfirmationStatus::Confirmed { block: Some(15), success: true }
            );
            assert_eq!(outcome.confirm_ms, 340);
            assert_eq!(outcome.block_distance, Some(3));
        }
        other => panic!("expected Finished, got {:?}", other),
    }
}

#[test]
fn poll_step_malformed_receipt_is_unknown_not_fatal() {
    let receipt =
        ReceiptInfo { tx_hash: vec![0x01], status: None, block_number: None, gas_used: None };
    let step = poll_step(vec![0x01], None, None, 10, None, Some(receipt));
    match step {
        PollStep::Finished(outcome) => {
            assert_eq!(outcome.status, ConfirmationStatus::Unknown);
            assert_eq!(outcome.block_distance, None);
        }
        other => panic!("expected Finished, got {:?}", other),
    }
}

#[test]
fn poll_step_without_receipt_polls_again_at_the_configured_delay() {
    let step = poll_step(vec![0x01], Some(5000), Some(100), 340, None, None);
    assert_eq!(step, PollStep::Poll { delay_ms: 100 });
    let busy = poll_step(vec![0x01], None, None, 340, None, None);
    assert_eq!(busy, PollStep::Poll { delay_ms: 0 });
}

#[test]
fn zero_timeout_yields_terminal_unknown_instead_of_blocking() {
    let step = poll_step(vec![0x01], Some(0), Some(100), 0, None, None);
    match step {
        PollStep::TimedOut(outcome) => {
            assert_eq!(outcome.status, ConfirmationStatus::Unknown);
            assert_eq!(outcome.confirm_ms, 0);
        }
        other => panic!("expected TimedOut, got {:?}", other),
    }
}

#[test]
fn timeout_fires_only_once_elapsed_reaches_the_bound() {
    let waiting = poll_step(vec![0x01], Some(500), Some(100), 499, None, None);
    assert_eq!(waiting, PollStep::Poll { delay_ms: 100 });
    let expired = poll_step(vec![0x01], Some(500), Some(100), 500, None, None);
    assert!(matches!(expired, PollStep::TimedOut(_)));
}

#[test]
fn strategy_record_honours_the_timing_shape() {
    let mut clock = LatencyClock::start(1000);
    clock.mark_sent(1250);
    clock.mark_confirmed(1700);

    let polled = txlat::strategy::strategy_record(
        StrategyKind::AsyncPoll,
        &clock,
        vec![0x0a],
        FinalStatus::Success,
    );
    assert_eq!(polled.send_ms, 250);
    assert_eq!(polled.confirm_ms, 450);
    assert_eq!(polled.total_ms, 700);

    let sync = txlat::strategy::strategy_record(
        StrategyKind::SyncSingleCall,
        &clock,
        vec![0x0b],
        FinalStatus::Success,
    );
    assert_eq!(sync.send_ms, 700);
    assert_eq!(sync.confirm_ms, 0);
    assert_eq!(sync.total_ms, 700);

    let push = txlat::strategy::strategy_record(
        StrategyKind::RealtimePush,
        &clock,
        vec![0x0c],
        FinalStatus::Failed,
    );
    assert_eq!(push.confirm_ms, 0);
    assert_eq!(push.total_ms, push.send_ms);
    assert_eq!(push.status, FinalStatus::Failed);
}
