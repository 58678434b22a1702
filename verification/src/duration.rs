//! `std::time::Duration` as the engine uses it, measured in nanoseconds.

use std::time::Duration;
use vstd::prelude::*;

verus! {

/// The largest length a `Duration` can have: `u64::MAX` seconds plus
/// 999,999,999 nanoseconds, in nanoseconds.
pub open spec fn max_nanos() -> nat {
    18_446_744_073_709_551_615nat * 1_000_000_000nat + 999_999_999nat
}

/// The length of a duration in nanoseconds, as `Duration::as_nanos` reports it.
pub uninterp spec fn duration_nanos(d: Duration) -> nat;

/// `Duration::as_nanos`: the total number of whole nanoseconds in `d`, which
/// never exceeds the length of `Duration::MAX`.
#[verifier::external_body]
pub(crate) fn nanos(d: Duration) -> (r: u128)
    ensures
        r == duration_nanos(d),
        r <= max_nanos(),
{
    d.as_nanos()
}

/// `Duration::from_millis`: a duration of `ms` milliseconds.
#[verifier::external_body]
pub(crate) fn from_millis(ms: u64) -> (r: Duration)
    ensures
        duration_nanos(r) == ms * 1_000_000,
{
    Duration::from_millis(ms)
}

/// `Duration::from_micros`: a duration of `us` microseconds.
#[verifier::external_body]
pub(crate) fn from_micros(us: u64) -> (r: Duration)
    ensures
        duration_nanos(r) == us * 1_000,
{
    Duration::from_micros(us)
}

/// `Duration::is_zero`: whether `d` has no length.
#[verifier::external_body]
pub(crate) fn is_zero(d: Duration) -> (r: bool)
    ensures
        r == (duration_nanos(d) == 0),
{
    d.is_zero()
}

/// `Duration::as_micros`: the total number of whole microseconds in `d`.
#[verifier::external_body]
pub(crate) fn micros(d: Duration) -> (r: u128)
    ensures
        r == duration_nanos(d) / 1_000,
{
    d.as_micros()
}

/// `Duration::saturating_sub`: `a - b`, or zero where `b` is longer than `a`.
#[verifier::external_body]
pub(crate) fn saturating_sub(a: Duration, b: Duration) -> (r: Duration)
    ensures
        duration_nanos(r) == if duration_nanos(a) >= duration_nanos(b) {
            (duration_nanos(a) - duration_nanos(b)) as nat
        } else {
            0nat
        },
{
    a.saturating_sub(b)
}

/// `<Duration as Add>::add`: `a + b`; std panics where the sum exceeds
/// `Duration::MAX`, so that input is left out.
#[verifier::external_body]
pub(crate) fn sum(a: Duration, b: Duration) -> (r: Duration)
    requires
        duration_nanos(a) + duration_nanos(b) <= max_nanos(),
    ensures
        duration_nanos(r) == duration_nanos(a) + duration_nanos(b),
{
    a + b
}

/// `<Duration as PartialOrd>::lt`: whether `a` is shorter than `b`.
#[verifier::external_body]
pub(crate) fn shorter(a: Duration, b: Duration) -> (r: bool)
    ensures
        r == (duration_nanos(a) < duration_nanos(b)),
{
    a < b
}

} // verus!
