//! Core library of a benchmarking harness for embedded key-value stores.
//!
//! The harness drives synthetic workloads against interchangeable storage
//! engines and records performance telemetry over time.  This crate holds the
//! verified core: the uniform storage adapter, the metrics registry, the
//! monitor state machine, the workload policies and the report assembly.
//! Process plumbing (threads, command-line handling, OS sampling) lives in a
//! thin unverified shell around it.

use vstd::prelude::*;

pub mod args;
pub mod clock;
pub mod db;
pub mod gen;
pub mod keys;
pub mod metrics;
pub mod monitor;
pub mod order;
pub mod record;
pub mod report;
pub mod stop;
pub mod workload;

verus! {

/// Storage engines that the harness has driven over its history.  The
/// canonical adapter (`db` module) supports the subset listed in
/// `db::Backend`; the remaining variants are kept so that configurations
/// naming them can still be parsed and reported as unsupported.
#[derive(Copy, Clone, Debug, PartialEq, Eq, Structural)]
pub enum Backend {
    Sled,
    Bloodstone,
    Fjall,
    Persy,
    JammDb,
    Redb,
    Nebari,
    Heed,
    RocksDb,
}

/// Access-pattern families the workload engine can generate.
#[derive(Copy, Clone, Debug, PartialEq, Eq, Structural)]
pub enum Workload {
    GarageBlockRef,
    Feed,
    FeedWriteOnly,
    Billion,
    HtmlDump,
    Webtable,
    Monotonic,
    MonotonicFixed,
    MonotonicWriteOnly,
    MonotonicFixedRandom,
    Timeseries,
}

impl Backend {
    /// The canonical adapter's selector for this engine, or `None` for the
    /// historical variants the canonical adapter does not drive.
    pub fn canonical(&self) -> (r: Option<db::Backend>)
        ensures
            self is Sled ==> r == Some(db::Backend::Sled),
            self is Fjall ==> r == Some(db::Backend::Fjall),
            self is Redb ==> r == Some(db::Backend::Redb),
            !(self is Sled || self is Fjall || self is Redb) ==> r is None,
    {
        match self {
            Backend::Sled => Some(db::Backend::Sled),
            Backend::Fjall => Some(db::Backend::Fjall),
            Backend::Redb => Some(db::Backend::Redb),
            _ => None,
        }
    }
}

/// Compaction strategy selector for LSM-tree engines.
#[derive(Copy, Clone, Debug, PartialEq, Eq, Structural)]
pub enum LsmCompaction {
    Leveled,
    Tiered,
}

impl LsmCompaction {
    /// Short label used when echoing the configuration.
    pub fn label(&self) -> (r: &'static str)
        ensures
            self is Leveled ==> r@ == "LCS"@,
            self is Tiered ==> r@ == "STCS"@,
    {
        proof {
            reveal_strlit("LCS");
            reveal_strlit("STCS");
        }
        match self {
            LsmCompaction::Leveled => "LCS",
            LsmCompaction::Tiered => "STCS",
        }
    }
}

/// Compression selector for LSM-tree engines.
#[derive(Copy, Clone, Debug, PartialEq, Eq, Structural)]
pub enum Compression {
    Uncompressed,
    Lz4,
    Miniz,
}

/// Fully resolved configuration of one benchmark run, as the historical
/// worker binaries consumed it.  Built once at startup and never mutated.
#[derive(Clone, Debug)]
pub struct Args {
    pub backend: Backend,
    pub display_name: Option<String>,
    pub workload: Workload,
    pub threads: u8,
    pub items: u32,
    pub key_size: u8,
    pub value_size: u32,
    pub lsm_kv_separation: bool,
    pub lsm_block_size: u16,
    pub lsm_compaction: LsmCompaction,
    pub lsm_compression: Compression,
    pub sled_flush: bool,
    pub cache_size: u64,
    pub out: String,
    pub data_dir: String,
    pub fsync: bool,
    pub minutes: u16,
}

} // verus!
