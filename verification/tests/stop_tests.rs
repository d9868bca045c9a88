use kv_bench_core::metrics::MetricsRegistry;
use kv_bench_core::monitor::{
    MonitorPhase, MonitorState, MonitorVerdict, OsSample, DEFAULT_MEM_CEILING_BYTES,
};
use kv_bench_core::record::{fin_line, header, render_header_row, render_number_row};
use kv_bench_core::stop::{run_duration_elapsed, StopToken};

#[test]
fn stop_token_starts_clear_and_stays_signaled() {
    let mut token = StopToken::new();
    assert!(!token.query());
    token.signal();
    assert!(token.query());
    token.signal();
    assert!(token.query());
}

#[test]
fn duration_timer_fires_after_the_configured_minutes() {
    assert!(!run_duration_elapsed(0, 1));
    assert!(!run_duration_elapsed(59_999, 1));
    assert!(run_duration_elapsed(60_000, 1));
    assert!(run_duration_elapsed(60_001, 1));
    assert!(run_duration_elapsed(120_000, 2));
    assert!(!run_duration_elapsed(119_999, 2));
    // Zero minutes: the smallest configuration stops at once.
    assert!(run_duration_elapsed(0, 0));
}

#[test]
fn shortest_run_reaches_the_sentinel() {
    // A run configured for the smallest duration: the timer signals after
    // one minute of run time, the next tick finishes, the log ends with
    // the sentinel, and no data row's timestamp overshoots the duration by
    // more than one sampling interval.
    let granularity_ms: u16 = 500;
    let minutes: u16 = 1;
    let mut token = StopToken::new();
    let mut st = MonitorState::new(granularity_ms, DEFAULT_MEM_CEILING_BYTES);
    let mut m = MetricsRegistry::new();
    st.start();

    let mut log: Vec<String> = Vec::new();
    log.push(String::from_utf8(render_header_row(&header())).unwrap());

    let mut elapsed_ms: u64 = 0;
    loop {
        elapsed_ms += granularity_ms as u64;
        if run_duration_elapsed(elapsed_ms, minutes) {
            token.signal();
        }
        let sample = OsSample {
            time_ms: elapsed_ms,
            cpu_centi: 100,
            mem_bytes: 1024,
            disk_space_bytes: 0,
            disk_written_bytes: 0,
            disk_read_bytes: 0,
        };
        let (rec, verdict) = st.tick(&mut m, &sample, token.query());
        log.push(String::from_utf8(render_number_row(&rec.fields())).unwrap());
        match verdict {
            MonitorVerdict::Continue => {},
            MonitorVerdict::Finished => {
                log.push(fin_line().to_string());
                break;
            },
            MonitorVerdict::MemoryAbort => panic!("guardrail must not fire here"),
        }
        assert!(elapsed_ms < minutes as u64 * 60_000 + granularity_ms as u64);
    }
    st.stop();
    assert_eq!(st.phase, MonitorPhase::Stopped);
    assert_eq!(log.last().unwrap(), "{\"fin\":true}");
    // One header, 120 data rows for the minute, the sentinel.
    assert_eq!(log.len(), 1 + 120 + 1);
    // Rows never overshoot the configured duration by more than one
    // sampling interval.
    assert!(elapsed_ms <= minutes as u64 * 60_000 + granularity_ms as u64);
}
