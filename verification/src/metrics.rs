//! Shared aggregation point for per-operation telemetry.
//!
//! The registry maps each operation kind (write, point read, scan, delete) to
//! an operation count, a latency accumulator and, where meaningful, a byte
//! total.  Counts and byte totals only ever grow during a run; latency
//! accumulators are drained (read and reset) once per monitor tick.  All
//! counters saturate at `u64::MAX` instead of wrapping, so monotonicity holds
//! unconditionally.

use vstd::prelude::*;

verus! {

/// The four kinds of storage operations the harness distinguishes.
#[derive(Copy, Clone, Debug, PartialEq, Eq, Structural)]
pub enum OpKind {
    Write,
    PointRead,
    Scan,
    Delete,
}

/// `a + b`, saturating at `u64::MAX`.
pub open spec fn sat_add(a: u64, b: u64) -> u64 {
    if a + b > u64::MAX {
        u64::MAX
    } else {
        (a + b) as u64
    }
}

/// Executable saturating add, proved to match `sat_add`.
pub fn saturating_add(a: u64, b: u64) -> (r: u64)
    ensures
        r == sat_add(a, b),
{
    if a <= u64::MAX - b {
        a + b
    } else {
        u64::MAX
    }
}

/// `a` plus a mathematical increment, saturating at `u64::MAX`.
pub open spec fn sat_add_int(a: u64, b: int) -> u64 {
    if a + b > u64::MAX {
        u64::MAX
    } else {
        (a + b) as u64
    }
}

/// Saturating additions chain: adding `x` and then `y` is adding `x + y`.
pub proof fn lemma_sat_add_chain(a: u64, x: int, y: int)
    requires
        x >= 0,
        y >= 0,
    ensures
        sat_add_int(sat_add_int(a, x), y) == sat_add_int(a, x + y),
{
}

/// One record per operation kind: how many operations ran, how much wall
/// clock time they took (nanoseconds, drained per tick), and how many bytes
/// they logically moved.
pub struct MetricsRegistry {
    pub write_ops: u64,
    pub read_ops: u64,
    pub scan_ops: u64,
    pub delete_ops: u64,
    pub write_latency: u64,
    pub read_latency: u64,
    pub scan_latency: u64,
    pub delete_latency: u64,
    pub written_bytes: u64,
    pub deleted_bytes: u64,
}

impl MetricsRegistry {
    /// Operation count for one kind.
    pub open spec fn ops_of(self, kind: OpKind) -> u64 {
        match kind {
            OpKind::Write => self.write_ops,
            OpKind::PointRead => self.read_ops,
            OpKind::Scan => self.scan_ops,
            OpKind::Delete => self.delete_ops,
        }
    }

    /// Latency accumulator for one kind.
    pub open spec fn latency_of(self, kind: OpKind) -> u64 {
        match kind {
            OpKind::Write => self.write_latency,
            OpKind::PointRead => self.read_latency,
            OpKind::Scan => self.scan_latency,
            OpKind::Delete => self.delete_latency,
        }
    }

    /// The registry after recording one write of `bytes` logical bytes that
    /// took `latency` nanoseconds.  The durability of the write plays no
    /// role: cost reflects bytes submitted, not bytes persisted.
    pub open spec fn with_write(self, bytes: u64, latency: u64) -> MetricsRegistry {
        MetricsRegistry {
            write_ops: sat_add(self.write_ops, 1),
            write_latency: sat_add(self.write_latency, latency),
            written_bytes: sat_add(self.written_bytes, bytes),
            ..self
        }
    }

    /// The registry after recording one point read.
    pub open spec fn with_point_read(self, latency: u64) -> MetricsRegistry {
        MetricsRegistry {
            read_ops: sat_add(self.read_ops, 1),
            read_latency: sat_add(self.read_latency, latency),
            ..self
        }
    }

    /// The registry after recording one scan (range, prefix or last-entry).
    pub open spec fn with_scan(self, latency: u64) -> MetricsRegistry {
        MetricsRegistry {
            scan_ops: sat_add(self.scan_ops, 1),
            scan_latency: sat_add(self.scan_latency, latency),
            ..self
        }
    }

    /// The registry after recording one delete with byte hint `bytes`.
    pub open spec fn with_delete(self, bytes: u64, latency: u64) -> MetricsRegistry {
        MetricsRegistry {
            delete_ops: sat_add(self.delete_ops, 1),
            delete_latency: sat_add(self.delete_latency, latency),
            deleted_bytes: sat_add(self.deleted_bytes, bytes),
            ..self
        }
    }

    /// Every counter at zero.
    pub open spec fn zeroed() -> MetricsRegistry {
        MetricsRegistry {
            write_ops: 0u64,
            read_ops: 0u64,
            scan_ops: 0u64,
            delete_ops: 0u64,
            write_latency: 0u64,
            read_latency: 0u64,
            scan_latency: 0u64,
            delete_latency: 0u64,
            written_bytes: 0u64,
            deleted_bytes: 0u64,
        }
    }

    /// A fresh registry with every counter at zero.
    pub fn new() -> (r: MetricsRegistry)
        ensures
            r == MetricsRegistry::zeroed(),
    {
        MetricsRegistry {
            write_ops: 0,
            read_ops: 0,
            scan_ops: 0,
            delete_ops: 0,
            write_latency: 0,
            read_latency: 0,
            scan_latency: 0,
            delete_latency: 0,
            written_bytes: 0,
            deleted_bytes: 0,
        }
    }

    /// Record one write of `bytes` logical bytes taking `latency` ns.
    pub fn record_write(&mut self, bytes: u64, latency: u64)
        ensures
            *final(self) == old(self).with_write(bytes, latency),
    {
        self.write_ops = saturating_add(self.write_ops, 1);
        self.write_latency = saturating_add(self.write_latency, latency);
        self.written_bytes = saturating_add(self.written_bytes, bytes);
    }

    /// Record one point read taking `latency` ns.
    pub fn record_point_read(&mut self, latency: u64)
        ensures
            *final(self) == old(self).with_point_read(latency),
    {
        self.read_ops = saturating_add(self.read_ops, 1);
        self.read_latency = saturating_add(self.read_latency, latency);
    }

    /// Record one scan taking `latency` ns.
    pub fn record_scan(&mut self, latency: u64)
        ensures
            *final(self) == old(self).with_scan(latency),
    {
        self.scan_ops = saturating_add(self.scan_ops, 1);
        self.scan_latency = saturating_add(self.scan_latency, latency);
    }

    /// Record one delete with byte hint `bytes` taking `latency` ns.
    pub fn record_delete(&mut self, bytes: u64, latency: u64)
        ensures
            *final(self) == old(self).with_delete(bytes, latency),
    {
        self.delete_ops = saturating_add(self.delete_ops, 1);
        self.delete_latency = saturating_add(self.delete_latency, latency);
        self.deleted_bytes = saturating_add(self.deleted_bytes, bytes);
    }

    /// Read and reset the latency accumulator of one kind.  Operation counts
    /// and byte totals are left untouched: the monitor reads those directly
    /// and differences them against its own previous snapshot.
    pub fn drain_latency(&mut self, kind: OpKind) -> (r: u64)
        ensures
            r == old(self).latency_of(kind),
            final(self).latency_of(kind) == 0,
            forall|k: OpKind| k != kind ==> final(self).latency_of(k) == old(self).latency_of(k),
            final(self).write_ops == old(self).write_ops,
            final(self).read_ops == old(self).read_ops,
            final(self).scan_ops == old(self).scan_ops,
            final(self).delete_ops == old(self).delete_ops,
            final(self).written_bytes == old(self).written_bytes,
            final(self).deleted_bytes == old(self).deleted_bytes,
    {
        match kind {
            OpKind::Write => {
                let r = self.write_latency;
                self.write_latency = 0;
                r
            },
            OpKind::PointRead => {
                let r = self.read_latency;
                self.read_latency = 0;
                r
            },
            OpKind::Scan => {
                let r = self.scan_latency;
                self.scan_latency = 0;
                r
            },
            OpKind::Delete => {
                let r = self.delete_latency;
                self.delete_latency = 0;
                r
            },
        }
    }
}

/// One write call, reduced to what the registry sees of it: the sizes, the
/// measured latency, and the durability flag the caller passed.
pub struct InsertRecord {
    pub key_len: u64,
    pub value_len: u64,
    pub latency: u64,
    pub durable: bool,
}

/// The registry after a sequence of writes.
pub open spec fn apply_inserts(m: MetricsRegistry, ops: Seq<InsertRecord>) -> MetricsRegistry
    decreases ops.len(),
{
    if ops.len() == 0 {
        m
    } else {
        apply_inserts(
            m.with_write((ops[0].key_len + ops[0].value_len) as u64, ops[0].latency),
            ops.drop_first(),
        )
    }
}

/// The logical bytes a sequence of writes submits: the sum of key length
/// plus value length over every write, whatever its durability flag.
pub open spec fn total_insert_bytes(ops: Seq<InsertRecord>) -> int
    decreases ops.len(),
{
    if ops.len() == 0 {
        0
    } else {
        ops[0].key_len + ops[0].value_len + total_insert_bytes(ops.drop_first())
    }
}

/// Over any sequence of writes — durable or not, in any interleaving — the
/// cumulative written-bytes counter grows by exactly the sum of
/// `key_len + value_len` over the writes, as long as the total fits the
/// counter.  The durability flag does not enter the sum.
pub proof fn lemma_written_bytes_sum(m: MetricsRegistry, ops: Seq<InsertRecord>)
    requires
        forall|i: int|
            0 <= i < ops.len() ==> (#[trigger] ops[i]).key_len + ops[i].value_len <= u64::MAX,
        m.written_bytes + total_insert_bytes(ops) <= u64::MAX,
    ensures
        apply_inserts(m, ops).written_bytes == m.written_bytes + total_insert_bytes(ops),
        apply_inserts(m, ops).write_ops == sat_add_int(m.write_ops, ops.len() as int),
    decreases ops.len(),
{
    if ops.len() > 0 {
        assert(total_insert_bytes(ops.drop_first()) >= 0) by {
            lemma_total_insert_bytes_nonneg(ops.drop_first());
        }
        lemma_written_bytes_sum(
            m.with_write((ops[0].key_len + ops[0].value_len) as u64, ops[0].latency),
            ops.drop_first(),
        );
        lemma_sat_add_chain(m.write_ops, 1, ops.len() - 1);
    }
}

/// The sum of write sizes is never negative.
proof fn lemma_total_insert_bytes_nonneg(ops: Seq<InsertRecord>)
    ensures
        total_insert_bytes(ops) >= 0,
    decreases ops.len(),
{
    if ops.len() > 0 {
        lemma_total_insert_bytes_nonneg(ops.drop_first());
    }
}

/// Two write sequences that differ only in their durability flags leave
/// the registry in the same state.
pub proof fn lemma_durability_immaterial(
    m: MetricsRegistry,
    a: Seq<InsertRecord>,
    b: Seq<InsertRecord>,
)
    requires
        a.len() == b.len(),
        forall|i: int|
            0 <= i < a.len() ==> (#[trigger] a[i]).key_len == b[i].key_len && a[i].value_len
                == b[i].value_len && a[i].latency == b[i].latency,
    ensures
        apply_inserts(m, a) == apply_inserts(m, b),
    decreases a.len(),
{
    if a.len() > 0 {
        lemma_durability_immaterial(
            m.with_write((a[0].key_len + a[0].value_len) as u64, a[0].latency),
            a.drop_first(),
            b.drop_first(),
        );
    }
}

/// One recorded storage operation of any kind, reduced to what the
/// registry sees of it.
pub enum OpRecord {
    Write { key_len: u64, value_len: u64, latency: u64, durable: bool },
    PointRead { latency: u64 },
    Scan { latency: u64 },
    Delete { bytes: u64, latency: u64 },
}

/// The kind an operation counts under.
pub open spec fn kind_of(op: OpRecord) -> OpKind {
    match op {
        OpRecord::Write { .. } => OpKind::Write,
        OpRecord::PointRead { .. } => OpKind::PointRead,
        OpRecord::Scan { .. } => OpKind::Scan,
        OpRecord::Delete { .. } => OpKind::Delete,
    }
}

/// The registry after one recorded operation.
pub open spec fn apply_op(m: MetricsRegistry, op: OpRecord) -> MetricsRegistry {
    match op {
        OpRecord::Write { key_len, value_len, latency, durable } => m.with_write(
            (key_len + value_len) as u64,
            latency,
        ),
        OpRecord::PointRead { latency } => m.with_point_read(latency),
        OpRecord::Scan { latency } => m.with_scan(latency),
        OpRecord::Delete { bytes, latency } => m.with_delete(bytes, latency),
    }
}

/// The registry after a sequence of recorded operations.
pub open spec fn apply_ops(m: MetricsRegistry, ops: Seq<OpRecord>) -> MetricsRegistry
    decreases ops.len(),
{
    if ops.len() == 0 {
        m
    } else {
        apply_ops(apply_op(m, ops[0]), ops.drop_first())
    }
}

/// Operations of other kinds leave a kind's operation count and latency
/// accumulator untouched.
pub proof fn lemma_untouched_kind(m: MetricsRegistry, ops: Seq<OpRecord>, kind: OpKind)
    requires
        forall|i: int| 0 <= i < ops.len() ==> kind_of(#[trigger] ops[i]) != kind,
    ensures
        apply_ops(m, ops).latency_of(kind) == m.latency_of(kind),
        apply_ops(m, ops).ops_of(kind) == m.ops_of(kind),
    decreases ops.len(),
{
    if ops.len() > 0 {
        lemma_untouched_kind(apply_op(m, ops[0]), ops.drop_first(), kind);
    }
}

/// Average latency of an interval: the drained accumulator divided by the
/// number of operations of that kind since the previous snapshot, with a
/// floor of one on the divisor so that an idle interval yields zero rather
/// than a division fault.
pub open spec fn interval_average(accumulated: u64, ops_since: u64) -> u64 {
    if ops_since == 0 {
        accumulated
    } else {
        (accumulated as int / ops_since as int) as u64
    }
}

/// Executable interval average, proved to match `interval_average`.
pub fn average_latency(accumulated: u64, ops_since: u64) -> (r: u64)
    ensures
        r == interval_average(accumulated, ops_since),
        accumulated == 0 ==> r == 0,
{
    if ops_since == 0 {
        accumulated
    } else {
        accumulated / ops_since
    }
}

} // verus!
