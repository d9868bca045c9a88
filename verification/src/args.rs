//! Resolved command-line input.
//!
//! The outer shell parses and validates the command line; the core consumes
//! only these plain, already-resolved values.

use vstd::prelude::*;

verus! {

/// One invocation of the harness.
#[derive(Clone, Debug)]
pub struct Args {
    pub command: Commands,
}

/// What the invocation asks for: a benchmark run, or assembly of earlier
/// run logs into one report.
#[derive(Clone, Debug)]
pub enum Commands {
    Run(RunOptions),
    Report(ReportOptions),
}

/// Resolved configuration of one benchmark run.  Built once at startup and
/// never mutated.
#[derive(Clone, Debug)]
pub struct RunOptions {
    pub backend: crate::db::Backend,
    pub data_dir: String,
    pub out: String,
    pub display_name: Option<String>,
    pub workload: crate::workload::Workload,
    pub minutes: u16,
    pub granularity_ms: u16,
    pub cache_size: u64,
}

/// Configuration of the report assembly step.
#[derive(Clone, Debug)]
pub struct ReportOptions {
    pub files: Vec<String>,
    pub out: String,
}

} // verus!
