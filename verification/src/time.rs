//! Reading the monotonic clock.

use std::time::Duration;
use std::time::Instant;
use vstd::prelude::*;

verus! {

/// `std::time::Instant`, a reading of the monotonic clock. Nothing is known
/// of what a reading holds.
#[verifier::external_type_specification]
#[verifier::external_body]
pub struct ExInstant(std::time::Instant);

/// Reads the monotonic clock with `std::time::Instant::now`. Nothing is
/// claimed of the reading: two readings may differ.
#[verifier::external_body]
pub(crate) fn instant_now() -> Instant {
    Instant::now()
}

/// The time from `earlier` to `later` by `Instant::saturating_duration_since`,
/// which gives zero where `later` is not the later of the two and does not
/// panic. Nothing is claimed of the duration.
#[verifier::external_body]
pub(crate) fn duration_between(later: &Instant, earlier: &Instant) -> Duration {
    later.saturating_duration_since(*earlier)
}

/// The whole nanoseconds in `duration` by `Duration::as_nanos`. Nothing is
/// claimed of their number.
#[verifier::external_body]
pub(crate) fn duration_nanos(duration: &Duration) -> u128 {
    duration.as_nanos()
}

/// The nanoseconds that have gone by since `epoch`, as far as 64 bits count
/// them. What the clock reads is not known, so nothing is said of the count.
pub(crate) fn nanos_since(epoch: &Instant) -> u64 {
    let now = instant_now();
    let elapsed = duration_between(&now, epoch);
    let nanos: u128 = duration_nanos(&elapsed);
    saturated(nanos)
}

/// A count of nanoseconds as 64 bits hold it: a count beyond them, which
/// takes some 584 years to reach, stays at their greatest value.
pub(crate) fn saturated(nanos: u128) -> (count: u64)
    ensures
        count == (if nanos > u64::MAX {
            u64::MAX as int
        } else {
            nanos as int
        }),
{
    if nanos > u64::MAX as u128 {
        u64::MAX
    } else {
        nanos as u64
    }
}

} // verus!
