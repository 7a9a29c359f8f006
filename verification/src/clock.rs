//! The monotonic clock that bounds a timed run.

use std::time::Duration;
use std::time::Instant;
use vstd::prelude::*;

verus! {

#[verifier::external_type_specification]
#[verifier::external_body]
pub struct ExInstant(std::time::Instant);

/// The length of a duration in nanoseconds.
pub uninterp spec fn duration_nanos(duration: Duration) -> nat;

/// `Instant::now`: the present reading of the monotonic clock. Nothing is
/// known of it.
#[verifier::external_body]
pub(crate) fn clock_now() -> (now: Instant) {
    Instant::now()
}

/// `Instant::elapsed`: the time gone by since `start`. Nothing is known of
/// it.
#[verifier::external_body]
pub(crate) fn clock_elapsed(start: &Instant) -> (elapsed: Duration) {
    start.elapsed()
}

/// `Duration::as_nanos`: the whole length of `duration` in nanoseconds.
#[verifier::external_body]
pub(crate) fn nanos_of(duration: &Duration) -> (nanos: u128)
    ensures
        nanos == duration_nanos(*duration),
{
    duration.as_nanos()
}

} // verus!
