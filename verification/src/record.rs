//! One emitted telemetry row, and the text form it takes on disk.
//!
//! The output file carries one JSON array of column names, then one JSON
//! array of numbers per monitor tick, each row's values positionally
//! matching the header.  Ratios are scaled integers (hundredths), with
//! `u64::MAX` as the sentinel for an undefined ratio, so every cell is a
//! plain number.

use vstd::prelude::*;
use vstd::string::StringSliceAdditionalSpecFns;

verus! {

/// How many columns every data row and the header carry.
pub const COLUMN_COUNT: usize = 25;

/// One data row: everything the monitor derives on one tick.
///
/// `cpu_centi` is hundredths of a percent; the `*_amp` fields are hundredths
/// of the ratio; the `*_latency` fields are average nanoseconds over the
/// tick's interval; the `*_rate` fields are operations per second the
/// interval's average latency would allow; the `*_potential` fields
/// accumulate those rates over elapsed ticks.
pub struct MetricsRecord {
    pub time_ms: u64,
    pub cpu_centi: u64,
    pub mem_kib: u64,
    pub disk_space_kib: u64,
    pub disk_writes_kib: u64,
    pub disk_reads_kib: u64,
    pub write_ops: u64,
    pub point_read_ops: u64,
    pub range_ops: u64,
    pub delete_ops: u64,
    pub write_latency: u64,
    pub point_read_latency: u64,
    pub range_latency: u64,
    pub delete_latency: u64,
    pub write_rate: u64,
    pub point_read_rate: u64,
    pub range_rate: u64,
    pub delete_rate: u64,
    pub write_potential: u64,
    pub point_read_potential: u64,
    pub range_potential: u64,
    pub delete_potential: u64,
    pub write_amp: u64,
    pub space_amp: u64,
    pub read_amp: u64,
}

/// The column names, in row order.
pub open spec fn column_names() -> Seq<Seq<char>> {
    seq![
        "time_ms"@,
        "cpu"@,
        "mem_kib"@,
        "disk_space_kib"@,
        "disk_writes_kib"@,
        "disk_reads_kib"@,
        "write_ops"@,
        "point_read_ops"@,
        "range_ops"@,
        "delete_ops"@,
        "write_latency"@,
        "point_read_latency"@,
        "range_latency"@,
        "delete_latency"@,
        "write_rate"@,
        "point_read_rate"@,
        "range_rate"@,
        "delete_rate"@,
        "write_potential"@,
        "point_read_potential"@,
        "range_potential"@,
        "delete_potential"@,
        "write_amp"@,
        "space_amp"@,
        "read_amp"@,
    ]
}

impl MetricsRecord {
    /// The row's cells, in column order.
    pub open spec fn fields_spec(self) -> Seq<u64> {
        seq![
            self.time_ms,
            self.cpu_centi,
            self.mem_kib,
            self.disk_space_kib,
            self.disk_writes_kib,
            self.disk_reads_kib,
            self.write_ops,
            self.point_read_ops,
            self.range_ops,
            self.delete_ops,
            self.write_latency,
            self.point_read_latency,
            self.range_latency,
            self.delete_latency,
            self.write_rate,
            self.point_read_rate,
            self.range_rate,
            self.delete_rate,
            self.write_potential,
            self.point_read_potential,
            self.range_potential,
            self.delete_potential,
            self.write_amp,
            self.space_amp,
            self.read_amp,
        ]
    }

    /// The row's cells as a vector, in column order.
    pub fn fields(&self) -> (r: Vec<u64>)
        ensures
            r@ == self.fields_spec(),
    {
        let mut r: Vec<u64> = Vec::new();
        r.push(self.time_ms);
        r.push(self.cpu_centi);
        r.push(self.mem_kib);
        r.push(self.disk_space_kib);
        r.push(self.disk_writes_kib);
        r.push(self.disk_reads_kib);
        r.push(self.write_ops);
        r.push(self.point_read_ops);
        r.push(self.range_ops);
        r.push(self.delete_ops);
        r.push(self.write_latency);
        r.push(self.point_read_latency);
        r.push(self.range_latency);
        r.push(self.delete_latency);
        r.push(self.write_rate);
        r.push(self.point_read_rate);
        r.push(self.range_rate);
        r.push(self.delete_rate);
        r.push(self.write_potential);
        r.push(self.point_read_potential);
        r.push(self.range_potential);
        r.push(self.delete_potential);
        r.push(self.write_amp);
        r.push(self.space_amp);
        r.push(self.read_amp);
        proof {
            assert(r@ =~= self.fields_spec());
        }
        r
    }
}

/// The header: the column names in row order.
pub fn header() -> (r: Vec<&'static str>)
    ensures
        r@.map_values(|s: &str| s@) == column_names(),
{
    let mut r: Vec<&'static str> = Vec::new();
    r.push("time_ms");
    r.push("cpu");
    r.push("mem_kib");
    r.push("disk_space_kib");
    r.push("disk_writes_kib");
    r.push("disk_reads_kib");
    r.push("write_ops");
    r.push("point_read_ops");
    r.push("range_ops");
    r.push("delete_ops");
    r.push("write_latency");
    r.push("point_read_latency");
    r.push("range_latency");
    r.push("delete_latency");
    r.push("write_rate");
    r.push("point_read_rate");
    r.push("range_rate");
    r.push("delete_rate");
    r.push("write_potential");
    r.push("point_read_potential");
    r.push("range_potential");
    r.push("delete_potential");
    r.push("write_amp");
    r.push("space_amp");
    r.push("read_amp");
    proof {
        assert(r@.map_values(|s: &str| s@) =~= column_names());
    }
    r
}

/// Every data row has exactly as many cells as the header has names.
pub proof fn lemma_row_matches_header(rec: MetricsRecord)
    ensures
        rec.fields_spec().len() == column_names().len(),
{
}

/// The decimal digits of `n`, most significant first.
pub open spec fn dec_rep(n: nat) -> Seq<u8>
    decreases n,
{
    if n < 10 {
        seq![(48 + n) as u8]
    } else {
        dec_rep(n / 10) + seq![(48 + n % 10) as u8]
    }
}

/// Append the decimal digits of `n`.
pub fn push_decimal(out: &mut Vec<u8>, n: u64)
    ensures
        final(out)@ == old(out)@ + dec_rep(n as nat),
    decreases n,
{
    if n < 10 {
        out.push(48 + n as u8);
        proof {
            assert(final(out)@ =~= old(out)@ + dec_rep(n as nat));
        }
    } else {
        push_decimal(out, n / 10);
        out.push(48 + (n % 10) as u8);
        proof {
            assert((n / 10) as nat == (n as nat) / 10);
            assert((n % 10) as nat == (n as nat) % 10);
            assert(final(out)@ =~= old(out)@ + dec_rep(n as nat));
        }
    }
}

/// The text of the row's cells from position `i` on, each preceded by a
/// comma.
pub open spec fn comma_fields(s: Seq<u64>) -> Seq<u8>
    decreases s.len(),
{
    if s.len() == 0 {
        Seq::empty()
    } else {
        seq![44u8] + dec_rep(s[0] as nat) + comma_fields(s.drop_first())
    }
}

/// A row of numbers as one JSON array, e.g. `[1,2,3]`.
pub open spec fn json_number_row(s: Seq<u64>) -> Seq<u8> {
    if s.len() == 0 {
        seq![91u8, 93u8]
    } else {
        seq![91u8] + dec_rep(s[0] as nat) + comma_fields(s.drop_first()) + seq![93u8]
    }
}

fn push_comma_fields(out: &mut Vec<u8>, vals: &Vec<u64>, i: usize)
    requires
        i <= vals@.len(),
    ensures
        final(out)@ == old(out)@ + comma_fields(vals@.skip(i as int)),
    decreases vals@.len() - i,
{
    if i < vals.len() {
        out.push(44);
        push_decimal(out, vals[i]);
        push_comma_fields(out, vals, i + 1);
        proof {
            assert(vals@.skip(i as int).drop_first() =~= vals@.skip(i + 1));
            assert(vals@.skip(i as int)[0] == vals@[i as int]);
            assert(final(out)@ =~= old(out)@ + comma_fields(vals@.skip(i as int)));
        }
    } else {
        proof {
            assert(vals@.skip(i as int).len() == 0);
            assert(final(out)@ =~= old(out)@ + comma_fields(vals@.skip(i as int)));
        }
    }
}

/// Render one data row as a JSON array of numbers.
pub fn render_number_row(vals: &Vec<u64>) -> (r: Vec<u8>)
    ensures
        r@ == json_number_row(vals@),
{
    let mut out: Vec<u8> = Vec::new();
    out.push(91);
    if vals.len() > 0 {
        push_decimal(&mut out, vals[0]);
        push_comma_fields(&mut out, vals, 1);
        proof {
            assert(vals@.skip(1) =~= vals@.drop_first());
        }
    }
    out.push(93);
    proof {
        assert(out@ =~= json_number_row(vals@));
    }
    out
}

/// `b` between double quotes.
pub open spec fn quoted(b: Seq<u8>) -> Seq<u8> {
    seq![34u8] + b + seq![34u8]
}

/// The header names from position `i` on, each quoted and preceded by a
/// comma.
pub open spec fn comma_strings(s: Seq<Seq<u8>>) -> Seq<u8>
    decreases s.len(),
{
    if s.len() == 0 {
        Seq::empty()
    } else {
        seq![44u8] + quoted(s[0]) + comma_strings(s.drop_first())
    }
}

/// A row of strings as one JSON array, e.g. `["a","b"]`.
pub open spec fn json_string_row(s: Seq<Seq<u8>>) -> Seq<u8> {
    if s.len() == 0 {
        seq![91u8, 93u8]
    } else {
        seq![91u8] + quoted(s[0]) + comma_strings(s.drop_first()) + seq![93u8]
    }
}

/// The byte strings of a list of names.
pub open spec fn names_bytes(s: Seq<&'static str>) -> Seq<Seq<u8>> {
    s.map_values(|n: &str| n.spec_bytes())
}

fn push_quoted(out: &mut Vec<u8>, name: &str)
    ensures
        final(out)@ == old(out)@ + quoted(name.spec_bytes()),
{
    out.push(34);
    let b = name.as_bytes();
    out.extend_from_slice(b);
    out.push(34);
    proof {
        assert(final(out)@ =~= old(out)@ + quoted(name.spec_bytes()));
    }
}

fn push_comma_strings(out: &mut Vec<u8>, names: &Vec<&'static str>, i: usize)
    requires
        i <= names@.len(),
    ensures
        final(out)@ == old(out)@ + comma_strings(names_bytes(names@).skip(i as int)),
    decreases names@.len() - i,
{
    if i < names.len() {
        out.push(44);
        push_quoted(out, names[i]);
        push_comma_strings(out, names, i + 1);
        proof {
            assert(names_bytes(names@).skip(i as int).drop_first() =~= names_bytes(
                names@,
            ).skip(i + 1));
            assert(names_bytes(names@).skip(i as int)[0] == names_bytes(names@)[i as int]);
            assert(final(out)@ =~= old(out)@ + comma_strings(names_bytes(names@).skip(i as int)));
        }
    } else {
        proof {
            assert(names_bytes(names@).skip(i as int).len() == 0);
            assert(final(out)@ =~= old(out)@ + comma_strings(names_bytes(names@).skip(i as int)));
        }
    }
}

/// Render the header as a JSON array of strings.
pub fn render_header_row(names: &Vec<&'static str>) -> (r: Vec<u8>)
    ensures
        r@ == json_string_row(names_bytes(names@)),
{
    let mut out: Vec<u8> = Vec::new();
    out.push(91);
    if names.len() > 0 {
        push_quoted(&mut out, names[0]);
        push_comma_strings(&mut out, names, 1);
        proof {
            assert(names_bytes(names@).skip(1) =~= names_bytes(names@).drop_first());
        }
    }
    out.push(93);
    proof {
        assert(out@ =~= json_string_row(names_bytes(names@)));
    }
    out
}

/// The sentinel line that closes a complete run log.
pub fn fin_line() -> (r: &'static str)
    ensures
        r@ == "{\"fin\":true}"@,
{
    "{\"fin\":true}"
}

} // verus!
