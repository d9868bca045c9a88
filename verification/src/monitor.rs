//! The periodic monitor: raw counters and OS signals in, one telemetry row
//! per tick out, resource guardrails enforced.
//!
//! The monitor walks `Idle -> Sampling -> (Sampling | Terminating) ->
//! Stopped`.  Each tick drains the latency accumulators, differences the
//! operation counts against its previous snapshot, derives averages, rates
//! and amplification ratios, and decides whether the run goes on, finishes
//! cleanly, or aborts on the memory guardrail.  The shell does the sleeping,
//! the OS sampling and the file writes; everything derived is computed and
//! pinned down here.

use vstd::prelude::*;

use crate::metrics::{interval_average, sat_add, MetricsRegistry, OpKind};
use crate::record::MetricsRecord;

verus! {

/// Exit status of a run aborted by the memory guardrail.
pub const GUARDRAIL_EXIT_CODE: i32 = 666;

/// Default resident-memory ceiling: sixteen gibibytes.
pub const DEFAULT_MEM_CEILING_BYTES: u64 = 0x4_0000_0000;

/// One reading of process- and disk-level statistics, taken by the shell
/// just before a tick.
pub struct OsSample {
    /// Milliseconds since the run started.
    pub time_ms: u64,
    /// Process CPU utilisation, hundredths of a percent.
    pub cpu_centi: u64,
    /// Process resident memory, bytes.
    pub mem_bytes: u64,
    /// On-disk size of the data directory, bytes.
    pub disk_space_bytes: u64,
    /// Disk bytes the process has written since it started.
    pub disk_written_bytes: u64,
    /// Disk bytes the process has read since it started.
    pub disk_read_bytes: u64,
}

/// Where the monitor stands.
#[derive(Copy, Clone, Debug, PartialEq, Eq, Structural)]
pub enum MonitorPhase {
    Idle,
    Sampling,
    Terminating,
    Stopped,
}

/// What the shell must do after writing the tick's row.
#[derive(Copy, Clone, Debug, PartialEq, Eq, Structural)]
pub enum MonitorVerdict {
    /// Sleep one interval and sample again.
    Continue,
    /// Append the closing sentinel, flush, and exit with status zero.
    Finished,
    /// Flush and terminate the whole process with the guardrail status.
    MemoryAbort,
}

/// `a - b`, floored at zero.
pub open spec fn sat_sub(a: u64, b: u64) -> u64 {
    if a >= b {
        (a - b) as u64
    } else {
        0
    }
}

/// Operations per second that an average latency of `avg` nanoseconds
/// sustains; zero when no latency was observed.
pub open spec fn rate_of(avg: u64) -> u64 {
    if avg == 0 {
        0
    } else {
        (1_000_000_000int / avg as int) as u64
    }
}

/// A ratio in hundredths: `u64::MAX` stands in both for an undefined ratio
/// (zero denominator) and for one too large to represent.
pub open spec fn amp_centi(num: u64, den: u64) -> u64 {
    if den == 0 {
        u64::MAX
    } else if num as int * 100 / den as int > u64::MAX {
        u64::MAX
    } else {
        (num as int * 100 / den as int) as u64
    }
}

/// Executable ratio in hundredths, proved to match `amp_centi`.
pub fn ratio_centi(num: u64, den: u64) -> (r: u64)
    ensures
        r == amp_centi(num, den),
{
    if den == 0 {
        u64::MAX
    } else {
        let q: u128 = (num as u128) * 100 / (den as u128);
        proof {
            assert(q == num as int * 100 / den as int);
        }
        if q > u64::MAX as u128 {
            u64::MAX
        } else {
            q as u64
        }
    }
}

/// What one tick adds to a potential-throughput accumulator: the rate the
/// interval's average latency would sustain, scaled to the interval's share
/// of a second.
pub open spec fn potential_step(rate: u64, granularity_ms: u16) -> u64 {
    ((rate as int * granularity_ms as int) / 1000) as u64
}

/// A registry with its latency accumulators drained and everything else
/// kept.
pub open spec fn drained(m: MetricsRegistry) -> MetricsRegistry {
    MetricsRegistry {
        write_latency: 0u64,
        read_latency: 0u64,
        scan_latency: 0u64,
        delete_latency: 0u64,
        ..m
    }
}

/// The monitor's own state between ticks: the phase, the configuration it
/// samples under, its previous counter snapshot, and the accumulated
/// potential throughput per operation kind.
pub struct MonitorState {
    pub phase: MonitorPhase,
    pub granularity_ms: u16,
    pub mem_ceiling_bytes: u64,
    pub prev_write_ops: u64,
    pub prev_read_ops: u64,
    pub prev_scan_ops: u64,
    pub prev_delete_ops: u64,
    pub potential_write_ops: u64,
    pub potential_read_ops: u64,
    pub potential_scan_ops: u64,
    pub potential_delete_ops: u64,
}

impl MonitorState {
    /// A monitor that has not started sampling yet.
    pub fn new(granularity_ms: u16, mem_ceiling_bytes: u64) -> (r: MonitorState)
        ensures
            r.phase is Idle,
            r.granularity_ms == granularity_ms,
            r.mem_ceiling_bytes == mem_ceiling_bytes,
            r.prev_write_ops == 0 && r.prev_read_ops == 0 && r.prev_scan_ops == 0
                && r.prev_delete_ops == 0,
            r.potential_write_ops == 0 && r.potential_read_ops == 0 && r.potential_scan_ops == 0
                && r.potential_delete_ops == 0,
    {
        MonitorState {
            phase: MonitorPhase::Idle,
            granularity_ms,
            mem_ceiling_bytes,
            prev_write_ops: 0,
            prev_read_ops: 0,
            prev_scan_ops: 0,
            prev_delete_ops: 0,
            potential_write_ops: 0,
            potential_read_ops: 0,
            potential_scan_ops: 0,
            potential_delete_ops: 0,
        }
    }

    /// Enter the sampling loop.
    pub fn start(&mut self)
        requires
            old(self).phase is Idle,
        ensures
            *final(self) == (MonitorState { phase: MonitorPhase::Sampling, ..*old(self) }),
    {
        self.phase = MonitorPhase::Sampling;
    }

    /// The shell has flushed the final row (and, on a clean finish, the
    /// sentinel); the monitor is done.
    pub fn stop(&mut self)
        requires
            old(self).phase is Terminating,
        ensures
            *final(self) == (MonitorState { phase: MonitorPhase::Stopped, ..*old(self) }),
    {
        self.phase = MonitorPhase::Stopped;
    }

    /// The average latency a tick reports for one kind: the drained
    /// accumulator over the operations of that kind since the previous
    /// snapshot.
    pub open spec fn tick_average(m: MetricsRegistry, kind: OpKind, prev: u64) -> u64 {
        interval_average(m.latency_of(kind), sat_sub(m.ops_of(kind), prev))
    }

    /// The tick's average latency per kind, as a four-tuple in write,
    /// point-read, scan, delete order.
    pub open spec fn tick_averages(self, m: MetricsRegistry) -> (u64, u64, u64, u64) {
        (
            Self::tick_average(m, OpKind::Write, self.prev_write_ops),
            Self::tick_average(m, OpKind::PointRead, self.prev_read_ops),
            Self::tick_average(m, OpKind::Scan, self.prev_scan_ops),
            Self::tick_average(m, OpKind::Delete, self.prev_delete_ops),
        )
    }

    /// The row one tick derives from the counters and the OS sample.
    pub open spec fn tick_record(self, m: MetricsRegistry, sample: OsSample) -> MetricsRecord {
        let avg = self.tick_averages(m);
        MetricsRecord {
            time_ms: sample.time_ms,
            cpu_centi: sample.cpu_centi,
            mem_kib: (sample.mem_bytes / 1024) as u64,
            disk_space_kib: (sample.disk_space_bytes / 1024) as u64,
            disk_writes_kib: (sample.disk_written_bytes / 1024) as u64,
            disk_reads_kib: (sample.disk_read_bytes / 1024) as u64,
            write_ops: m.write_ops,
            point_read_ops: m.read_ops,
            range_ops: m.scan_ops,
            delete_ops: m.delete_ops,
            write_latency: avg.0,
            point_read_latency: avg.1,
            range_latency: avg.2,
            delete_latency: avg.3,
            write_rate: rate_of(avg.0),
            point_read_rate: rate_of(avg.1),
            range_rate: rate_of(avg.2),
            delete_rate: rate_of(avg.3),
            write_potential: sat_add(
                self.potential_write_ops,
                potential_step(rate_of(avg.0), self.granularity_ms),
            ),
            point_read_potential: sat_add(
                self.potential_read_ops,
                potential_step(rate_of(avg.1), self.granularity_ms),
            ),
            range_potential: sat_add(
                self.potential_scan_ops,
                potential_step(rate_of(avg.2), self.granularity_ms),
            ),
            delete_potential: sat_add(
                self.potential_delete_ops,
                potential_step(rate_of(avg.3), self.granularity_ms),
            ),
            write_amp: amp_centi(sample.disk_written_bytes, m.written_bytes),
            space_amp: amp_centi(sample.disk_space_bytes, sat_sub(m.written_bytes, m.deleted_bytes)),
            read_amp: 100u64,
        }
    }

    /// The verdict one tick renders: the memory guardrail outranks the stop
    /// signal, and either one ends the sampling loop.
    pub open spec fn tick_verdict(self, sample: OsSample, stop: bool) -> MonitorVerdict {
        if sample.mem_bytes >= self.mem_ceiling_bytes {
            MonitorVerdict::MemoryAbort
        } else if stop {
            MonitorVerdict::Finished
        } else {
            MonitorVerdict::Continue
        }
    }

    /// The monitor state after one tick: snapshot advanced, potentials
    /// accumulated, phase per the verdict.
    pub open spec fn tick_next(self, m: MetricsRegistry, sample: OsSample, stop: bool)
        -> MonitorState {
        let rec = self.tick_record(m, sample);
        MonitorState {
            phase: if self.tick_verdict(sample, stop) is Continue {
                MonitorPhase::Sampling
            } else {
                MonitorPhase::Terminating
            },
            prev_write_ops: m.write_ops,
            prev_read_ops: m.read_ops,
            prev_scan_ops: m.scan_ops,
            prev_delete_ops: m.delete_ops,
            potential_write_ops: rec.write_potential,
            potential_read_ops: rec.point_read_potential,
            potential_scan_ops: rec.range_potential,
            potential_delete_ops: rec.delete_potential,
            ..self
        }
    }

    /// One sampling tick.  Drains the latency accumulators of `metrics`
    /// (counts and byte totals are only read), derives the tick's row from
    /// the sample and the counter deltas, advances the snapshot and the
    /// potential accumulators, and renders the verdict.
    #[verifier::rlimit(60)]
    pub fn tick(&mut self, metrics: &mut MetricsRegistry, sample: &OsSample, stop: bool) -> (r: (
        MetricsRecord,
        MonitorVerdict,
    ))
        requires
            old(self).phase is Sampling,
        ensures
            *final(metrics) == drained(*old(metrics)),
            r.0 == old(self).tick_record(*old(metrics), *sample),
            r.1 == old(self).tick_verdict(*sample, stop),
            *final(self) == old(self).tick_next(*old(metrics), *sample, stop),
    {
        let acc_w = metrics.drain_latency(OpKind::Write);
        let acc_r = metrics.drain_latency(OpKind::PointRead);
        let acc_s = metrics.drain_latency(OpKind::Scan);
        let acc_d = metrics.drain_latency(OpKind::Delete);
        proof {
            assert(*metrics == drained(*old(metrics)));
        }

        let avg_w = crate::metrics::average_latency(
            acc_w,
            saturating_sub(metrics.write_ops, self.prev_write_ops),
        );
        let avg_r = crate::metrics::average_latency(
            acc_r,
            saturating_sub(metrics.read_ops, self.prev_read_ops),
        );
        let avg_s = crate::metrics::average_latency(
            acc_s,
            saturating_sub(metrics.scan_ops, self.prev_scan_ops),
        );
        let avg_d = crate::metrics::average_latency(
            acc_d,
            saturating_sub(metrics.delete_ops, self.prev_delete_ops),
        );
        proof {
            assert(old(self).tick_averages(*old(metrics)) == (avg_w, avg_r, avg_s, avg_d));
        }

        let rate_w = rate(avg_w);
        let rate_r = rate(avg_r);
        let rate_s = rate(avg_s);
        let rate_d = rate(avg_d);

        let pot_w = crate::metrics::saturating_add(
            self.potential_write_ops,
            rate_share(rate_w, self.granularity_ms),
        );
        let pot_r = crate::metrics::saturating_add(
            self.potential_read_ops,
            rate_share(rate_r, self.granularity_ms),
        );
        let pot_s = crate::metrics::saturating_add(
            self.potential_scan_ops,
            rate_share(rate_s, self.granularity_ms),
        );
        let pot_d = crate::metrics::saturating_add(
            self.potential_delete_ops,
            rate_share(rate_d, self.granularity_ms),
        );

        let rec = MetricsRecord {
            time_ms: sample.time_ms,
            cpu_centi: sample.cpu_centi,
            mem_kib: sample.mem_bytes / 1024,
            disk_space_kib: sample.disk_space_bytes / 1024,
            disk_writes_kib: sample.disk_written_bytes / 1024,
            disk_reads_kib: sample.disk_read_bytes / 1024,
            write_ops: metrics.write_ops,
            point_read_ops: metrics.read_ops,
            range_ops: metrics.scan_ops,
            delete_ops: metrics.delete_ops,
            write_latency: avg_w,
            point_read_latency: avg_r,
            range_latency: avg_s,
            delete_latency: avg_d,
            write_rate: rate_w,
            point_read_rate: rate_r,
            range_rate: rate_s,
            delete_rate: rate_d,
            write_potential: pot_w,
            point_read_potential: pot_r,
            range_potential: pot_s,
            delete_potential: pot_d,
            write_amp: ratio_centi(sample.disk_written_bytes, metrics.written_bytes),
            space_amp: ratio_centi(
                sample.disk_space_bytes,
                saturating_sub(metrics.written_bytes, metrics.deleted_bytes),
            ),
            read_amp: 100,
        };
        proof {
            assert(rec == old(self).tick_record(*old(metrics), *sample));
        }

        let verdict = if sample.mem_bytes >= self.mem_ceiling_bytes {
            MonitorVerdict::MemoryAbort
        } else if stop {
            MonitorVerdict::Finished
        } else {
            MonitorVerdict::Continue
        };

        self.phase = match verdict {
            MonitorVerdict::Continue => MonitorPhase::Sampling,
            MonitorVerdict::Finished => MonitorPhase::Terminating,
            MonitorVerdict::MemoryAbort => MonitorPhase::Terminating,
        };
        self.prev_write_ops = metrics.write_ops;
        self.prev_read_ops = metrics.read_ops;
        self.prev_scan_ops = metrics.scan_ops;
        self.prev_delete_ops = metrics.delete_ops;
        self.potential_write_ops = pot_w;
        self.potential_read_ops = pot_r;
        self.potential_scan_ops = pot_s;
        self.potential_delete_ops = pot_d;
        proof {
            assert(*self == old(self).tick_next(*old(metrics), *sample, stop));
        }

        (rec, verdict)
    }
}

/// A sampling interval in which no operation of a kind ran reports an
/// average latency of exactly zero for that kind — never a division fault,
/// and never negative, the average being unsigned.  `m` is the registry as
/// the previous tick left it (that kind's accumulator drained, its count
/// snapshotted in `prev`), and `ops` are the operations recorded since,
/// none of them of that kind.
pub proof fn lemma_idle_interval_reports_zero(
    m: MetricsRegistry,
    ops: Seq<crate::metrics::OpRecord>,
    kind: OpKind,
    prev: u64,
)
    requires
        m.latency_of(kind) == 0,
        prev == m.ops_of(kind),
        forall|i: int| 0 <= i < ops.len() ==> crate::metrics::kind_of(#[trigger] ops[i]) != kind,
    ensures
        MonitorState::tick_average(crate::metrics::apply_ops(m, ops), kind, prev) == 0,
{
    crate::metrics::lemma_untouched_kind(m, ops, kind);
}

/// Executable `sat_sub`.
pub fn saturating_sub(a: u64, b: u64) -> (r: u64)
    ensures
        r == sat_sub(a, b),
{
    if a >= b {
        a - b
    } else {
        0
    }
}

/// Executable `rate_of`.
pub fn rate(avg: u64) -> (r: u64)
    ensures
        r == rate_of(avg),
        r <= 1_000_000_000,
{
    if avg == 0 {
        0
    } else {
        1_000_000_000 / avg
    }
}

/// Executable `potential_step`.
pub fn rate_share(rate: u64, granularity_ms: u16) -> (r: u64)
    requires
        rate <= 1_000_000_000,
    ensures
        r == potential_step(rate, granularity_ms),
{
    proof {
        assert(rate * granularity_ms as u64 <= 1_000_000_000 * 65535) by (nonlinear_arith)
            requires
                rate <= 1_000_000_000,
                granularity_ms <= 65535,
        ;
    }
    rate * (granularity_ms as u64) / 1000
}

} // verus!
