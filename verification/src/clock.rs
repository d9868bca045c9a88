//! Time sources.
//!
//! Latency is measured with the monotonic clock around each storage call;
//! wall-clock time stamps the run's output.  Both clocks are environment
//! reads, so nothing is promised about the values they return.

use vstd::prelude::*;

verus! {

#[verifier::external_type_specification]
#[verifier::external_body]
pub struct ExInstant(std::time::Instant);

/// Relies on `std::time::Instant::now`: an opaque monotonic timestamp.
#[verifier::external_body]
pub fn instant_now() -> std::time::Instant {
    std::time::Instant::now()
}

/// Relies on `std::time::Instant::elapsed`: nanoseconds since `start`,
/// truncated to 64 bits.
#[verifier::external_body]
pub fn elapsed_nanos(start: &std::time::Instant) -> u64 {
    start.elapsed().as_nanos() as u64
}

/// Relies on `std::time::SystemTime::now`: milliseconds since the Unix
/// epoch, or zero should the system clock sit before the epoch.
#[verifier::external_body]
fn system_unix_millis() -> u64 {
    std::time::SystemTime::now()
        .duration_since(std::time::SystemTime::UNIX_EPOCH)
        .map(|d| d.as_millis() as u64)
        .unwrap_or(0)
}

/// Wall-clock milliseconds since the Unix epoch.
pub fn unix_timestamp() -> u64 {
    system_unix_millis()
}

} // verus!
