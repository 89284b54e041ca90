use txlat::shred::{ShredMonitor, ShredObservation};

#[test]
fn shred_message_yields_fields_and_interval() {
    let mut monitor = ShredMonitor::new(1_000);
    let text = "{\"jsonrpc\":\"2.0\",\"method\":\"rise_subscription\",\
        \"params\":{\"subscription\":1,\"result\":{\"block_number\":128,\"shred_idx\":7}}}";
    let observed = monitor.handle_message(text, 1_600);
    assert_eq!(
        observed,
        Some(ShredObservation { block_number: 128, shred_idx: 7, interval_ms: 600 })
    );
}

#[test]
fn intervals_measure_between_consecutive_shreds() {
    let mut monitor = ShredMonitor::new(0);
    let text = "{\"params\":{\"result\":{\"block_number\":1,\"shred_idx\":0}}}";
    let first = monitor.handle_message(text, 250).unwrap();
    assert_eq!(first.interval_ms, 250);
    let text = "{\"params\":{\"result\":{\"block_number\":1,\"shred_idx\":1}}}";
    let second = monitor.handle_message(text, 400).unwrap();
    assert_eq!(second.interval_ms, 150);
}

#[test]
fn invalid_json_is_ignored() {
    let mut monitor = ShredMonitor::new(1_000);
    assert_eq!(monitor.handle_message("not json at all", 2_000), None);
    // The last-shred mark is unchanged: the next real shred measures
    // from the monitor's start.
    let text = "{\"params\":{\"result\":{\"block_number\":2,\"shred_idx\":3}}}";
    let observed = monitor.handle_message(text, 2_500).unwrap();
    assert_eq!(observed.interval_ms, 1_500);
}

#[test]
fn messages_without_shred_fields_are_ignored() {
    let mut monitor = ShredMonitor::new(0);
    assert_eq!(monitor.handle_message("{\"id\":1,\"result\":\"0xabc\"}", 100), None);
    assert_eq!(monitor.handle_message("{\"params\":{\"result\":{}}}", 100), None);
    assert_eq!(
        monitor.handle_message("{\"params\":{\"result\":{\"block_number\":5}}}", 100),
        None
    );
}
