//! Readings of the monotonic clock.
//!
//! Everything in the library that depends on time takes the reading as an
//! argument; only the plain entry points read the clock, through here.
use vstd::prelude::*;

verus! {

/// A reading of the monotonic clock.
#[verifier::external_type_specification]
#[verifier::external_body]
pub struct ExInstant(std::time::Instant);

/// `Instant` is `Copy`: its `clone` gives the same reading.
pub assume_specification[ <std::time::Instant as std::clone::Clone>::clone ](instant: &std::time::Instant) -> (r: std::time::Instant)
    ensures
        r == *instant,
;

/// Calls `Instant::now`.  Nothing is promised of the reading.
#[verifier::external_body]
pub(crate) fn instant_now() -> (t: std::time::Instant) {
    std::time::Instant::now()
}

/// Calls `Instant::elapsed`.  Nothing is promised of the duration: it
/// depends on when it is called.
#[verifier::external_body]
fn instant_elapsed(start: &std::time::Instant) -> (d: std::time::Duration) {
    start.elapsed()
}

/// Calls `Instant::duration_since` (which gives zero when `earlier` is
/// the later reading).  Nothing is promised of the duration: it depends on
/// the two readings, which Verus does not see.
#[verifier::external_body]
fn instant_duration_since(later: &std::time::Instant, earlier: &std::time::Instant) -> (d: std::time::Duration) {
    later.duration_since(*earlier)
}

/// Calls `Duration::as_nanos`.  Nothing is promised of the number: the
/// duration is opaque here.
#[verifier::external_body]
fn duration_as_nanos(d: &std::time::Duration) -> (n: u128) {
    d.as_nanos()
}

/// `n`, or `u64::MAX` when it does not fit.
fn saturate_u64(n: u128) -> (r: u64)
    ensures
        r == (if n > u64::MAX { u64::MAX as int } else { n as int }),
{
    if n > u64::MAX as u128 {
        u64::MAX
    } else {
        n as u64
    }
}

/// Nanoseconds since `start` (saturating at `u64::MAX`).  Nothing is
/// promised of the number: it depends on when it is called.
pub(crate) fn nanos_since(start: &std::time::Instant) -> u64 {
    let d = instant_elapsed(start);
    saturate_u64(duration_as_nanos(&d))
}

/// Nanoseconds from `earlier` to `later` (0 when `earlier` is the later
/// reading, saturating at `u64::MAX`).  Nothing is promised of the number.
pub(crate) fn nanos_between(later: &std::time::Instant, earlier: &std::time::Instant) -> u64 {
    let d = instant_duration_since(later, earlier);
    saturate_u64(duration_as_nanos(&d))
}

} // verus!
