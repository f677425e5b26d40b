//! Time values: `Duration` modelled by its length in nanoseconds, and the
//! clock readings (`Instant`) that the preparation phase records.

use std::time::{Duration, Instant};
use vstd::prelude::*;

verus! {

/// The length of `Duration::MAX` in nanoseconds: `u64::MAX` seconds plus
/// 999 999 999 nanoseconds.
pub const MAX_DURATION_NANOS: u128 = 18_446_744_073_709_551_615_999_999_999;

/// The length of a duration in whole nanoseconds, as `Duration::as_nanos`
/// reports it.
pub uninterp spec fn duration_nanos(d: Duration) -> nat;

/// `Instant` from std: an opaque reading of a monotonic clock.
#[verifier::external_type_specification]
#[verifier::external_body]
pub struct ExInstant(Instant);

/// `Clone` for `Duration`, a `Copy` type: the clone is the same value.
pub assume_specification[ <Duration as Clone>::clone ](d: &Duration) -> (r: Duration)
    ensures
        r == *d,
;

/// `Clone` for `Instant`, a `Copy` type: the clone is the same reading.
pub assume_specification[ <Instant as Clone>::clone ](t: &Instant) -> (r: Instant)
    ensures
        r == *t,
;

/// Calls `Duration::as_nanos`. Claimed: the result is the length of `d` in
/// nanoseconds, and no duration is longer than `Duration::MAX`.
#[verifier::external_body]
pub(crate) fn nanos_of(d: &Duration) -> (r: u128)
    ensures
        r == duration_nanos(*d),
        r <= MAX_DURATION_NANOS,
{
    d.as_nanos()
}

/// Calls `Duration::new`. Claimed: with fewer than a billion extra
/// nanoseconds (so that no carry can overflow) the result is
/// `secs * 10^9 + nanos` nanoseconds long.
#[verifier::external_body]
pub(crate) fn duration_new(secs: u64, nanos: u32) -> (r: Duration)
    requires
        nanos < 1_000_000_000,
    ensures
        duration_nanos(r) == secs * 1_000_000_000 + nanos,
{
    Duration::new(secs, nanos)
}

/// Calls `Duration::saturating_sub`. Claimed: the result is `a - b`, or zero
/// where `b` is the longer one.
#[verifier::external_body]
pub(crate) fn duration_saturating_sub(a: Duration, b: Duration) -> (r: Duration)
    ensures
        duration_nanos(r) == if duration_nanos(a) >= duration_nanos(b) {
            duration_nanos(a) - duration_nanos(b)
        } else {
            0
        },
{
    a.saturating_sub(b)
}

/// Calls `Duration::checked_add`. Claimed: `Some` of the sum where the sum
/// does not exceed `Duration::MAX`, and `None` where it does.
#[verifier::external_body]
pub(crate) fn duration_checked_add(a: Duration, b: Duration) -> (r: Option<Duration>)
    ensures
        match r {
            Some(s) => {
                &&& duration_nanos(s) == duration_nanos(a) + duration_nanos(b)
                &&& duration_nanos(a) + duration_nanos(b) <= MAX_DURATION_NANOS
            },
            None => duration_nanos(a) + duration_nanos(b) > MAX_DURATION_NANOS,
        },
{
    a.checked_add(b)
}

/// The length of `d` in whole nanoseconds.
pub fn duration_as_nanos(d: Duration) -> (r: u128)
    ensures
        r == duration_nanos(d),
        r <= MAX_DURATION_NANOS,
{
    nanos_of(&d)
}

/// Calls `Instant::now`. Nothing is claimed of the reading.
#[verifier::external_body]
pub(crate) fn instant_now() -> (r: Instant) {
    Instant::now()
}

/// Calls `Instant::elapsed`. Nothing is claimed of the result: it depends on
/// the clock.
#[verifier::external_body]
pub(crate) fn instant_elapsed(start: &Instant) -> (r: Duration) {
    start.elapsed()
}

/// Calls `Instant::checked_add`. Nothing is claimed of the result: whether
/// the sum is representable depends on the platform's clock.
#[verifier::external_body]
pub(crate) fn instant_checked_add(t: Instant, d: Duration) -> (r: Option<Instant>) {
    t.checked_add(d)
}

/// Calls `Instant::duration_since`. Nothing is claimed of the result: it
/// depends on the two clock readings.
#[verifier::external_body]
pub(crate) fn instant_duration_since(later: &Instant, earlier: Instant) -> (r: Duration) {
    later.duration_since(earlier)
}

} // verus!
