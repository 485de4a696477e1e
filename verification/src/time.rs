//! Clock readings and durations from std, behind trusted wrappers.
//!
//! A reading of the clock depends on when it is taken, so the wrappers that
//! read it promise nothing of their results; the logic that decides on a
//! reading takes it as an argument and is verified for every value of it.

use std::time::{Duration, Instant};
use vstd::prelude::*;

verus! {

/// A point in time of the monotonic clock, opaque to the proofs.
#[verifier::external_type_specification]
#[verifier::external_body]
pub struct ExInstant(std::time::Instant);

/// `Duration::clone`: a copy of the duration.
pub assume_specification[ <std::time::Duration as std::clone::Clone>::clone ](d: &Duration) -> (r: Duration)
    ensures
        r == *d,
;

/// `Instant::clone`: a copy of the reading.
pub assume_specification[ <std::time::Instant as std::clone::Clone>::clone ](i: &Instant) -> (r: Instant)
    ensures
        r == *i,
;

/// The duration of `secs` whole seconds, as `Duration::from_secs` builds it.
pub uninterp spec fn secs_duration(secs: u64) -> Duration;

/// The duration of `millis` milliseconds, as `Duration::from_millis` builds it.
pub uninterp spec fn millis_duration(millis: u64) -> Duration;

/// `Duration::from_secs`: the result is the duration named `secs_duration(secs)`.
#[verifier::external_body]
pub(crate) fn duration_from_secs(secs: u64) -> (d: Duration)
    ensures
        d == secs_duration(secs),
{
    Duration::from_secs(secs)
}

/// `Duration::from_millis`: the result is the duration named `millis_duration(millis)`.
#[verifier::external_body]
pub(crate) fn duration_from_millis(millis: u64) -> (d: Duration)
    ensures
        d == millis_duration(millis),
{
    Duration::from_millis(millis)
}

/// The whole seconds of a duration, as `Duration::as_secs` returns them.
pub uninterp spec fn whole_secs(d: Duration) -> u64;

/// `Duration::as_secs`: the whole seconds of `d`, named `whole_secs(d)`; a
/// duration built from `n` seconds has `n`, and one built from `m`
/// milliseconds has `m / 1000`.
#[verifier::external_body]
pub(crate) fn duration_as_secs(d: &Duration) -> (s: u64)
    ensures
        s == whole_secs(*d),
        forall|n: u64| *d == secs_duration(n) ==> s == n,
        forall|m: u64| *d == millis_duration(m) ==> s == m / 1000,
{
    d.as_secs()
}

/// `Instant::now`: the current reading of the monotonic clock; nothing is
/// stated of it.
#[verifier::external_body]
pub(crate) fn instant_now() -> Instant {
    Instant::now()
}

/// `Instant::elapsed`: the time that has passed since `since`; it depends on
/// the clock, so nothing is stated of it.
#[verifier::external_body]
pub(crate) fn elapsed_since(since: &Instant) -> Duration {
    since.elapsed()
}

/// `Instant::elapsed` in whole milliseconds (`Duration::as_millis`, cut to
/// 64 bits); it depends on the clock, so nothing is stated.
#[verifier::external_body]
pub(crate) fn elapsed_millis(since: &Instant) -> u64 {
    since.elapsed().as_millis() as u64
}

/// Whether duration `a` is at least as long as `b`, as `Duration`'s `>=`
/// decides.
pub uninterp spec fn duration_ge(a: Duration, b: Duration) -> bool;

/// `Duration`'s `>=`: the answer is named `duration_ge(a, b)`, a function of
/// the two durations alone; durations are ordered by length, so two built
/// from whole seconds, or two built from milliseconds, compare as their
/// counts do.
#[verifier::external_body]
pub(crate) fn duration_at_least(a: &Duration, b: &Duration) -> (r: bool)
    ensures
        r == duration_ge(*a, *b),
        forall|m: u64, n: u64| *a == secs_duration(m) && *b == secs_duration(n) ==> (r <==> m >= n),
        forall|m: u64, n: u64| *a == millis_duration(m) && *b == millis_duration(n) ==> (r <==> m >= n),
{
    a.ge(b)
}

/// `chrono::Utc::now().to_rfc3339()`: the current UTC time as RFC 3339
/// text. It depends on the clock, so nothing is stated of it.
#[verifier::external_body]
pub(crate) fn now_rfc3339() -> String {
    chrono::Utc::now().to_rfc3339()
}

} // verus!
