//! The two clocks of the host: the wall clock, which seeds the sampler, and
//! the monotonic clock, which times the frames. Nothing is known of what
//! they show, so none of these calls has a postcondition.

use std::time::{Duration, Instant, SystemTime, SystemTimeError};
use vstd::prelude::*;

verus! {

/// `std::time::SystemTime`, a reading of the wall clock.
#[verifier::external_type_specification]
#[verifier::external_body]
pub struct ExSystemTime(std::time::SystemTime);

/// `std::time::SystemTimeError`, the error of a reading before the epoch.
#[verifier::external_type_specification]
#[verifier::external_body]
pub struct ExSystemTimeError(std::time::SystemTimeError);

/// `std::time::Instant`, a reading of the monotonic clock.
#[verifier::external_type_specification]
#[verifier::external_body]
pub struct ExInstant(std::time::Instant);

/// Calls `SystemTime::now` for the wall clock's reading. Nothing is claimed
/// of it: it can be any time at all.
#[verifier::external_body]
pub(crate) fn wall_clock_now() -> (now: SystemTime) {
    SystemTime::now()
}

/// Calls `SystemTime::duration_since` with the Unix epoch, which gives the
/// time from the epoch to `time`, or an error when `time` lies before the
/// epoch. Nothing is claimed of which it is, nor of the duration.
#[verifier::external_body]
pub(crate) fn since_unix_epoch(time: &SystemTime) -> (elapsed: Result<Duration, SystemTimeError>) {
    time.duration_since(std::time::UNIX_EPOCH)
}

/// Calls `Duration::as_millis` for the whole milliseconds in a duration.
/// Nothing is claimed of their number.
#[verifier::external_body]
pub(crate) fn whole_millis(duration: &Duration) -> (millis: u128) {
    duration.as_millis()
}

/// Calls `Duration::as_nanos` for the whole nanoseconds in a duration.
/// Nothing is claimed of their number.
#[verifier::external_body]
pub(crate) fn whole_nanos(duration: &Duration) -> (nanos: u128) {
    duration.as_nanos()
}

/// Calls `Instant::now` for the monotonic clock's reading. Nothing is
/// claimed of it.
#[verifier::external_body]
pub(crate) fn monotonic_now() -> (now: Instant) {
    Instant::now()
}

/// Calls `Instant::saturating_duration_since`, which gives the time from
/// `earlier` to `later`, or no time at all when `earlier` is the later of the
/// two. Nothing is claimed of the duration.
#[verifier::external_body]
pub(crate) fn time_between(earlier: &Instant, later: &Instant) -> (elapsed: Duration) {
    later.saturating_duration_since(*earlier)
}

} // verus!
