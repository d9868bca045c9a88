use kv_bench_core::metrics::MetricsRegistry;
use kv_bench_core::monitor::{
    ratio_centi, MonitorPhase, MonitorState, MonitorVerdict, OsSample, DEFAULT_MEM_CEILING_BYTES,
    GUARDRAIL_EXIT_CODE,
};
use kv_bench_core::record::fin_line;

fn quiet_sample() -> OsSample {
    OsSample {
        time_ms: 500,
        cpu_centi: 1234,
        mem_bytes: 10 * 1024,
        disk_space_bytes: 4096,
        disk_written_bytes: 8192,
        disk_read_bytes: 2048,
    }
}

#[test]
fn one_byte_ceiling_aborts_on_first_tick() {
    // A memory ceiling of one byte: any real process exceeds it, so the
    // very first sampling tick must render the guardrail abort, with its
    // distinct non-zero exit status.
    let mut st = MonitorState::new(500, 1);
    st.start();
    let mut m = MetricsRegistry::new();
    let (_rec, verdict) = st.tick(&mut m, &quiet_sample(), false);
    assert_eq!(verdict, MonitorVerdict::MemoryAbort);
    assert_eq!(st.phase, MonitorPhase::Terminating);
    assert_ne!(GUARDRAIL_EXIT_CODE, 0);
    assert_eq!(GUARDRAIL_EXIT_CODE, 666);
    assert_eq!(DEFAULT_MEM_CEILING_BYTES, 16 * 1024 * 1024 * 1024);
}

#[test]
fn idle_interval_reports_zero_latency() {
    // No operation of any kind ran in the interval: every average latency
    // cell is exactly zero.
    let mut st = MonitorState::new(500, DEFAULT_MEM_CEILING_BYTES);
    st.start();
    let mut m = MetricsRegistry::new();
    let (rec, verdict) = st.tick(&mut m, &quiet_sample(), false);
    assert_eq!(verdict, MonitorVerdict::Continue);
    assert_eq!(rec.write_latency, 0);
    assert_eq!(rec.point_read_latency, 0);
    assert_eq!(rec.range_latency, 0);
    assert_eq!(rec.delete_latency, 0);
    assert_eq!(rec.write_rate, 0);
}

#[test]
fn tick_averages_interval_latency() {
    let mut st = MonitorState::new(500, DEFAULT_MEM_CEILING_BYTES);
    st.start();
    let mut m = MetricsRegistry::new();
    m.record_write(4, 100);
    m.record_write(4, 50);
    m.record_point_read(30);
    let (rec, _) = st.tick(&mut m, &quiet_sample(), false);
    assert_eq!(rec.write_ops, 2);
    assert_eq!(rec.point_read_ops, 1);
    assert_eq!(rec.write_latency, 75);
    assert_eq!(rec.point_read_latency, 30);
    // The accumulators were drained; a second idle tick reports zero.
    let (rec2, _) = st.tick(&mut m, &quiet_sample(), false);
    assert_eq!(rec2.write_latency, 0);
    assert_eq!(rec2.point_read_latency, 0);
    assert_eq!(rec2.write_ops, 2);
}

#[test]
fn tick_rates_follow_average_latency() {
    let mut st = MonitorState::new(1000, DEFAULT_MEM_CEILING_BYTES);
    st.start();
    let mut m = MetricsRegistry::new();
    // One write of one microsecond: one million per second sustainable.
    m.record_write(4, 1_000);
    let (rec, _) = st.tick(&mut m, &quiet_sample(), false);
    assert_eq!(rec.write_rate, 1_000_000);
    // Granularity of a full second: the whole rate accrues as potential.
    assert_eq!(rec.write_potential, 1_000_000);
}

#[test]
fn stop_signal_finishes_the_run() {
    let mut st = MonitorState::new(500, DEFAULT_MEM_CEILING_BYTES);
    st.start();
    let mut m = MetricsRegistry::new();
    let (_rec, verdict) = st.tick(&mut m, &quiet_sample(), true);
    assert_eq!(verdict, MonitorVerdict::Finished);
    assert_eq!(st.phase, MonitorPhase::Terminating);
    st.stop();
    assert_eq!(st.phase, MonitorPhase::Stopped);
    // The clean run ends with the sentinel line and exit status zero.
    assert_eq!(fin_line(), "{\"fin\":true}");
}

#[test]
fn amplification_is_reported_in_hundredths() {
    let mut st = MonitorState::new(500, DEFAULT_MEM_CEILING_BYTES);
    st.start();
    let mut m = MetricsRegistry::new();
    m.record_write(4096, 10);
    let sample = OsSample {
        time_ms: 500,
        cpu_centi: 0,
        mem_bytes: 1,
        disk_space_bytes: 8192,
        disk_written_bytes: 12288,
        disk_read_bytes: 0,
    };
    let (rec, _) = st.tick(&mut m, &sample, false);
    // write amplification: 12288 physical / 4096 logical = 3.00
    assert_eq!(rec.write_amp, 300);
    // space amplification: 8192 on disk / 4096 live = 2.00
    assert_eq!(rec.space_amp, 200);
}

#[test]
fn undefined_ratio_reports_the_sentinel() {
    assert_eq!(ratio_centi(123, 0), u64::MAX);
    assert_eq!(ratio_centi(0, 7), 0);
    assert_eq!(ratio_centi(7, 2), 350);
    assert_eq!(ratio_centi(u64::MAX, 1), u64::MAX);
}

#[test]
fn mem_kib_scales_the_sampled_bytes() {
    let mut st = MonitorState::new(500, DEFAULT_MEM_CEILING_BYTES);
    st.start();
    let mut m = MetricsRegistry::new();
    let sample = OsSample {
        time_ms: 77,
        cpu_centi: 250,
        mem_bytes: 3 * 1024 * 1024,
        disk_space_bytes: 10240,
        disk_written_bytes: 20480,
        disk_read_bytes: 1024,
    };
    let (rec, _) = st.tick(&mut m, &sample, false);
    assert_eq!(rec.time_ms, 77);
    assert_eq!(rec.cpu_centi, 250);
    assert_eq!(rec.mem_kib, 3 * 1024);
    assert_eq!(rec.disk_space_kib, 10);
    assert_eq!(rec.disk_writes_kib, 20);
    assert_eq!(rec.disk_reads_kib, 1);
}
