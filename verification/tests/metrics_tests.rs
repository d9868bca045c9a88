use kv_bench_core::metrics::{average_latency, saturating_add, MetricsRegistry, OpKind};

#[test]
fn fresh_registry_is_zeroed() {
    let m = MetricsRegistry::new();
    assert_eq!(m.write_ops, 0);
    assert_eq!(m.read_ops, 0);
    assert_eq!(m.scan_ops, 0);
    assert_eq!(m.delete_ops, 0);
    assert_eq!(m.write_latency, 0);
    assert_eq!(m.read_latency, 0);
    assert_eq!(m.scan_latency, 0);
    assert_eq!(m.delete_latency, 0);
    assert_eq!(m.written_bytes, 0);
    assert_eq!(m.deleted_bytes, 0);
}

#[test]
fn written_bytes_ignore_durability() {
    // Mixed durable and non-durable writes: the byte total is the plain sum
    // of key length + value length over every write.
    let mut m = MetricsRegistry::new();
    m.record_write(2 + 2, 10); // "k1" -> "v1", buffered
    m.record_write(2 + 4, 20); // "k2" -> "vvvv", durable
    m.record_write(3 + 1, 30); // "key" -> "x", buffered
    m.record_write(2 + 2, 40); // "k1" -> "v2", durable
    assert_eq!(m.written_bytes, 4 + 6 + 4 + 4);
    assert_eq!(m.write_ops, 4);
    assert_eq!(m.write_latency, 100);
}

#[test]
fn record_kinds_touch_only_their_counters() {
    let mut m = MetricsRegistry::new();
    m.record_point_read(7);
    m.record_scan(11);
    m.record_delete(5, 13);
    assert_eq!(m.write_ops, 0);
    assert_eq!(m.read_ops, 1);
    assert_eq!(m.scan_ops, 1);
    assert_eq!(m.delete_ops, 1);
    assert_eq!(m.read_latency, 7);
    assert_eq!(m.scan_latency, 11);
    assert_eq!(m.delete_latency, 13);
    assert_eq!(m.deleted_bytes, 5);
    assert_eq!(m.written_bytes, 0);
}

#[test]
fn drain_resets_only_the_drained_latency() {
    let mut m = MetricsRegistry::new();
    m.record_write(4, 100);
    m.record_point_read(50);
    let drained = m.drain_latency(OpKind::Write);
    assert_eq!(drained, 100);
    assert_eq!(m.write_latency, 0);
    assert_eq!(m.read_latency, 50);
    assert_eq!(m.write_ops, 1);
    assert_eq!(m.written_bytes, 4);
}

#[test]
fn idle_interval_average_is_zero() {
    // Zero operations of a kind in the interval: the accumulator was
    // drained to zero and nothing was added, so the average is exactly 0.
    assert_eq!(average_latency(0, 0), 0);
}

#[test]
fn interval_average_divides_by_ops() {
    assert_eq!(average_latency(100, 4), 25);
    assert_eq!(average_latency(99, 4), 24);
    // An interval with accumulated latency but no counted operations keeps
    // the accumulator as the average (divisor floored at one).
    assert_eq!(average_latency(123, 0), 123);
}

#[test]
fn counters_saturate_instead_of_wrapping() {
    assert_eq!(saturating_add(u64::MAX - 1, 1), u64::MAX);
    assert_eq!(saturating_add(u64::MAX, 1), u64::MAX);
    assert_eq!(saturating_add(3, 4), 7);
    let mut m = MetricsRegistry::new();
    m.record_write(u64::MAX, 1);
    m.record_write(10, 1);
    assert_eq!(m.written_bytes, u64::MAX);
}
