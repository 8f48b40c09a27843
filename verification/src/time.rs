//! Points in time of a domain, as `core::time::Duration` values.

use core::time::Duration;
use vstd::prelude::*;

verus! {

/// The `Duration` that `Duration::new(secs, nanos)` returns.
pub uninterp spec fn duration_of(secs: u64, nanos: u32) -> Duration;

/// Calls `core::time::Duration::new`.
///
/// Trusted: with `nanos` below one billion, `Duration::new` does not carry
/// nanoseconds into seconds and so cannot panic; its result depends on the
/// two arguments alone, which is what `duration_of` names.
#[verifier::external_body]
fn duration_new(secs: u64, nanos: u32) -> (d: Duration)
    requires
        nanos < 1_000_000_000,
    ensures
        d == duration_of(secs, nanos),
{
    Duration::new(secs, nanos)
}

/// `Duration` is `Copy`, and its `Clone::clone` returns an equal value.
pub assume_specification[ <Duration as Clone>::clone ](d: &Duration) -> (r: Duration)
    ensures
        r == *d,
;

/// A whole number of seconds as a `Duration`.
pub open spec fn secs(s: u64) -> Duration {
    duration_of(s, 0)
}

/// The largest `Duration` (`Duration::MAX`: `u64::MAX` seconds and
/// 999 999 999 nanoseconds), which stands for "never".
pub open spec fn forever() -> Duration {
    duration_of(u64::MAX, 999_999_999)
}

/// `s` seconds.
pub fn seconds(s: u64) -> (d: Duration)
    ensures
        d == secs(s),
{
    duration_new(s, 0)
}

/// `Duration::MAX`.
pub fn max_duration() -> (d: Duration)
    ensures
        d == forever(),
{
    duration_new(u64::MAX, 999_999_999)
}

} // verus!
