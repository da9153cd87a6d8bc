//! Time spans as whole numbers of nanoseconds.

use std::time::Duration;
use vstd::prelude::*;

verus! {

/// The whole seconds of a time span: what `Duration::as_secs` returns.
pub uninterp spec fn duration_secs(duration: Duration) -> u64;

/// The part of a time span below one second, in nanoseconds: what
/// `Duration::subsec_nanos` returns.
pub uninterp spec fn duration_subsec_nanos(duration: Duration) -> u32;

/// `Duration::as_secs`: the number of whole seconds in the span.
pub assume_specification[ Duration::as_secs ](duration: &Duration) -> (secs: u64)
    ensures
        secs == duration_secs(*duration),
;

/// `Duration::subsec_nanos`: the fractional part of the span in nanoseconds,
/// which is below one second.
pub assume_specification[ Duration::subsec_nanos ](duration: &Duration) -> (nanos: u32)
    ensures
        nanos == duration_subsec_nanos(*duration),
        nanos < 1_000_000_000,
;

/// `Duration::from_millis`: the span of that many milliseconds. A second has
/// a thousand of them, and each has a million nanoseconds.
pub assume_specification[ Duration::from_millis ](millis: u64) -> (duration: Duration)
    ensures
        duration_secs(duration) == millis / 1000,
        duration_subsec_nanos(duration) == (millis % 1000) * 1_000_000,
;

/// The length of a time span in nanoseconds.
pub open spec fn nanos_of(duration: Duration) -> int {
    duration_secs(duration) * 1_000_000_000 + duration_subsec_nanos(duration)
}

/// The length of a time span in nanoseconds, for a span that is short enough
/// for the number to fit: one of less than 584 years.
pub fn discrete(duration: Duration) -> (nanos: u64)
    requires
        nanos_of(duration) <= u64::MAX,
    ensures
        nanos == nanos_of(duration),
{
    let secs: u64 = duration.as_secs();
    let rest: u32 = duration.subsec_nanos();
    assert(secs * 1_000_000_000 <= u64::MAX) by (nonlinear_arith)
        requires
            secs * 1_000_000_000 + rest <= u64::MAX,
            rest >= 0,
    ;
    secs * 1_000_000_000 + (rest as u64)
}

/// The length of a time span in nanoseconds, or nothing where the number
/// does not fit.
pub fn try_discrete(duration: Duration) -> (nanos: Option<u64>)
    ensures
        nanos_of(duration) <= u64::MAX ==> nanos == Some(nanos_of(duration) as u64),
        nanos_of(duration) > u64::MAX ==> nanos is None,
{
    let secs: u64 = duration.as_secs();
    let rest: u32 = duration.subsec_nanos();
    match secs.checked_mul(1_000_000_000) {
        Some(whole) => match whole.checked_add(rest as u64) {
            Some(_) => Some(discrete(duration)),
            None => None,
        },
        None => None,
    }
}

} // verus!
