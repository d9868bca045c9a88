//! The termination controller: one monotone stop signal.
//!
//! The token starts clear and is set at most once, by the run-duration
//! timer or by the monitor's guardrail; once set it never reverts.  Workers
//! and the monitor poll it between operations — cancellation is cooperative,
//! never preemptive.  The shell shares one token across threads and mirrors
//! these operations on it.

use vstd::prelude::*;

verus! {

/// A single shared stop flag.
pub struct StopToken {
    pub signaled: bool,
}

impl StopToken {
    /// A token that has not been signaled.
    pub fn new() -> (r: StopToken)
        ensures
            !r.is_signaled(),
    {
        StopToken { signaled: false }
    }

    /// Whether the run should wind down.
    pub open spec fn is_signaled(self) -> bool {
        self.signaled
    }

    /// Request shutdown.  Idempotent, and never un-signals: after the call
    /// the token is signaled for good.
    pub fn signal(&mut self)
        ensures
            final(self).is_signaled(),
    {
        self.signaled = true;
    }

    /// Non-blocking read of the flag.
    pub fn query(&self) -> (r: bool)
        ensures
            r == self.is_signaled(),
    {
        self.signaled
    }
}

/// Whether the run-duration timer should fire: `minutes` have passed since
/// the run began.
pub open spec fn duration_elapsed(elapsed_ms: u64, minutes: u16) -> bool {
    elapsed_ms >= minutes as int * 60_000
}

/// The timer's decision, proved to match `duration_elapsed`.
pub fn run_duration_elapsed(elapsed_ms: u64, minutes: u16) -> (r: bool)
    ensures
        r == duration_elapsed(elapsed_ms, minutes),
{
    elapsed_ms >= (minutes as u64) * 60_000
}

} // verus!
