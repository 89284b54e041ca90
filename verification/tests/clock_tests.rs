use txlat::clock::{elapsed_ms, get_timestamp_ms, LatencyClock};
use txlat::records::FinalStatus;

#[test]
fn elapsed_is_the_difference_of_the_samples() {
    assert_eq!(elapsed_ms(1000, 1750), 750);
    assert_eq!(elapsed_ms(1000, 1000), 0);
}

#[test]
fn a_backwards_clock_reads_zero() {
    assert_eq!(elapsed_ms(2000, 1000), 0);
}

#[test]
fn an_oversized_interval_saturates() {
    assert_eq!(elapsed_ms(0, u128::MAX), u64::MAX);
}

#[test]
fn clock_separates_the_two_phases() {
    let mut clock = LatencyClock::start(5_000);
    clock.mark_sent(5_200);
    clock.mark_confirmed(5_900);
    assert_eq!(clock.send_ms(), 200);
    assert_eq!(clock.confirm_ms(), 700);
    assert_eq!(clock.total_ms(), 900);

    let record = clock.into_record(vec![0x42], FinalStatus::Success);
    assert_eq!(record.id, vec![0x42]);
    assert_eq!(record.send_ms, 200);
    assert_eq!(record.confirm_ms, 700);
    assert_eq!(record.total_ms, 900);
    assert_eq!(record.status, FinalStatus::Success);
}

#[test]
fn clock_clamps_backwards_marks() {
    let mut clock = LatencyClock::start(5_000);
    clock.mark_sent(4_000);
    clock.mark_confirmed(3_000);
    assert_eq!(clock.send_ms(), 0);
    assert_eq!(clock.confirm_ms(), 0);
    assert_eq!(clock.total_ms(), 0);
}

#[test]
fn timestamps_come_from_a_live_clock() {
    let t1 = get_timestamp_ms();
    let t2 = get_timestamp_ms();
    assert!(t1 > 0);
    assert!(t2 >= t1);
}
