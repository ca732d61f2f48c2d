use vstd::prelude::*;

verus! {

/// std's opaque reading of the monotonic clock.
#[verifier::external_type_specification]
#[verifier::external_body]
pub struct ExInstant(std::time::Instant);

/// Relies on `std::time::Instant::now`.  A reading of the monotonic
/// clock; it depends on when it is taken, so nothing is promised of it.
#[verifier::external_body]
pub fn clock_now() -> std::time::Instant {
    std::time::Instant::now()
}

/// Relies on `std::time::Instant::elapsed`.  The span between the reading
/// and now; it depends on the wall clock, so nothing is promised of it.
#[verifier::external_body]
pub fn clock_elapsed(t: &std::time::Instant) -> std::time::Duration {
    t.elapsed()
}

/// Relies on `std::time::Duration::as_millis`.  The span in whole
/// milliseconds, truncated into 64 bits; how long a span is depends on
/// the clock, so nothing is promised of the value.
#[verifier::external_body]
pub fn duration_millis(d: &std::time::Duration) -> u64 {
    d.as_millis() as u64
}

} // verus!
