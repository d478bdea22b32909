use audio_relay::telemetry::TelemetryBuffer;

#[test]
fn readings_stay_in_write_order() {
    let mut tap = TelemetryBuffer::new(10);
    tap.push(3);
    tap.push(1);
    tap.push(4);
    assert_eq!(tap.snapshot(), vec![3, 1, 4]);
    assert_eq!(tap.len(), 3);
}

#[test]
fn eviction_is_strict_fifo() {
    let mut tap = TelemetryBuffer::new(3);
    for r in 1..=5u64 {
        tap.push(r);
        assert!(tap.len() <= 3);
    }
    // Only the most recent three remain, oldest evicted first.
    assert_eq!(tap.snapshot(), vec![3, 4, 5]);
}

#[test]
fn rolling_window_scenario_d() {
    // 1500 sequential rectified readings through a capacity-1000 buffer
    // leave exactly readings 501..=1500, in that order.
    let mut tap = TelemetryBuffer::new(1000);
    for r in 1..=1500u64 {
        tap.push(r);
        assert!(tap.len() <= 1000);
    }
    assert_eq!(tap.len(), 1000);
    let snapshot = tap.snapshot();
    let expected: Vec<u64> = (501..=1500).collect();
    assert_eq!(snapshot, expected);
}

#[test]
fn zero_capacity_drops_every_reading() {
    let mut tap = TelemetryBuffer::new(0);
    tap.push(7);
    tap.push(8);
    assert_eq!(tap.len(), 0);
    assert!(tap.snapshot().is_empty());
}

#[test]
fn snapshot_is_a_copy() {
    let mut tap = TelemetryBuffer::new(4);
    tap.push(9);
    let snapshot = tap.snapshot();
    tap.push(10);
    // The observer's copy does not change under later writes.
    assert_eq!(snapshot, vec![9]);
    assert_eq!(tap.snapshot(), vec![9, 10]);
}

#[test]
fn empty_snapshot_right_after_start() {
    let tap = TelemetryBuffer::new(1000);
    assert!(tap.snapshot().is_empty());
    assert_eq!(tap.capacity(), 1000);
}
