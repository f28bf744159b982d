//! Durations and instants of the monotonic clock, as far as the batching
//! rules read them.

use std::time::{Duration, Instant};
use vstd::prelude::*;

verus! {

/// A reading of the monotonic clock. Nothing is known of its inside.
#[verifier::external_type_specification]
#[verifier::external_body]
pub struct ExInstant(Instant);

/// The length of a duration in nanoseconds.
pub uninterp spec fn duration_nanos(d: Duration) -> nat;

/// The position of a clock reading on the clock's own time line, in
/// nanoseconds from an origin that no reading precedes.
pub uninterp spec fn instant_nanos(at: Instant) -> nat;

/// The time that passes from one reading to another; none where the second
/// is not the later one.
pub open spec fn nanos_between(earlier: Instant, later: Instant) -> nat {
    if instant_nanos(later) >= instant_nanos(earlier) {
        (instant_nanos(later) - instant_nanos(earlier)) as nat
    } else {
        0
    }
}

pub const NANOS_PER_MILLI: u64 = 1_000_000;

pub const NANOS_PER_SEC: u64 = 1_000_000_000;

/// `Duration::from_millis`: the duration that lasts the given number of
/// milliseconds.
pub assume_specification[ Duration::from_millis ](millis: u64) -> (d: Duration)
    ensures
        duration_nanos(d) == millis * NANOS_PER_MILLI,
;

/// `Duration::from_secs`: the duration that lasts the given number of whole
/// seconds.
pub assume_specification[ Duration::from_secs ](secs: u64) -> (d: Duration)
    ensures
        duration_nanos(d) == secs * NANOS_PER_SEC,
;

/// `Duration::as_millis`: the whole milliseconds in the duration, the rest
/// dropped.
pub assume_specification[ Duration::as_millis ](d: &Duration) -> (millis: u128)
    ensures
        millis == duration_nanos(*d) / (NANOS_PER_MILLI as nat),
;

/// `Instant::now`: reads the clock. Nothing is promised of the reading.
pub assume_specification[ Instant::now ]() -> Instant;

/// `Instant::duration_since`: the time from `earlier` to `at`, and zero where
/// `earlier` is the later of the two.
pub assume_specification[ Instant::duration_since ](at: &Instant, earlier: Instant) -> (d: Duration)
    ensures
        duration_nanos(d) == if instant_nanos(*at) >= instant_nanos(earlier) {
            instant_nanos(*at) - instant_nanos(earlier)
        } else {
            0
        },
;

/// The `+` of two durations, which std defines wherever the seconds of the sum
/// fit in 64 bits: the sum lasts as long as both together.
#[verifier::external_body]
pub(crate) fn duration_sum(a: Duration, b: Duration) -> (sum: Duration)
    requires
        duration_nanos(a) + duration_nanos(b) <= u64::MAX * NANOS_PER_SEC,
    ensures
        duration_nanos(sum) == duration_nanos(a) + duration_nanos(b),
{
    a + b
}

/// The `>=` of two durations: std orders them by their length.
#[verifier::external_body]
pub(crate) fn duration_at_least(a: Duration, b: Duration) -> (reached: bool)
    ensures
        reached == (duration_nanos(a) >= duration_nanos(b)),
{
    a >= b
}

} // verus!
