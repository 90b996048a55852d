//! Spans of time: what this crate relies on from `std::time::Duration`, stated
//! over the span's length in nanoseconds.

use std::time::Duration;
use vstd::prelude::*;

verus! {

/// Nanoseconds in one second.
pub const NANOS_PER_SEC: u32 = 1_000_000_000;

/// The length of a span, in nanoseconds: what `Duration::as_nanos` gives.
/// A `Duration` is known here by its length alone.
pub uninterp spec fn duration_nanos(d: Duration) -> nat;

/// The longest span that a `Duration` holds: `u64::MAX` seconds and one
/// nanosecond less than a second.
pub open spec fn max_nanos() -> nat {
    (u64::MAX as nat) * (NANOS_PER_SEC as nat) + 999_999_999
}

/// `Duration::new`: the span of `secs` seconds and `nanos` nanoseconds, the
/// nanoseconds above one second carried into the seconds. It panics where the
/// carry overflows the seconds, which the precondition leaves out.
pub assume_specification[ Duration::new ](secs: u64, nanos: u32) -> (d: Duration)
    requires
        secs + nanos / NANOS_PER_SEC <= u64::MAX,
    ensures
        duration_nanos(d) == secs * NANOS_PER_SEC + nanos,
;

/// `Duration::as_secs`: the whole seconds in the span.
pub assume_specification[ Duration::as_secs ](d: &Duration) -> (secs: u64)
    ensures
        secs == duration_nanos(*d) / (NANOS_PER_SEC as nat),
;

/// `Duration::subsec_nanos`: what the span holds beyond its whole seconds, in
/// nanoseconds.
pub assume_specification[ Duration::subsec_nanos ](d: &Duration) -> (nanos: u32)
    ensures
        nanos == duration_nanos(*d) % (NANOS_PER_SEC as nat),
;

/// `Duration::is_zero`: whether the span has no length.
pub assume_specification[ Duration::is_zero ](d: &Duration) -> (none: bool)
    ensures
        none == (duration_nanos(*d) == 0),
;

/// `Duration::checked_add`: the two spans together, or `None` where their sum
/// is longer than a `Duration` holds.
pub assume_specification[ Duration::checked_add ](d: Duration, rhs: Duration) -> (sum: Option<
    Duration,
>)
    ensures
        match sum {
            Some(s) => duration_nanos(s) == duration_nanos(d) + duration_nanos(rhs)
                && duration_nanos(d) + duration_nanos(rhs) <= max_nanos(),
            None => duration_nanos(d) + duration_nanos(rhs) > max_nanos(),
        },
;

/// `Duration::checked_sub`: the first span less the second, or `None` where the
/// second is the longer.
pub assume_specification[ Duration::checked_sub ](d: Duration, rhs: Duration) -> (diff: Option<
    Duration,
>)
    ensures
        match diff {
            Some(s) => duration_nanos(s) == duration_nanos(d) - duration_nanos(rhs)
                && duration_nanos(d) >= duration_nanos(rhs),
            None => duration_nanos(d) < duration_nanos(rhs),
        },
;

/// What is left of `a` once `b` is taken from it: nothing, where `b` is the
/// longer.
pub open spec fn nanos_less(a: nat, b: nat) -> nat {
    if a >= b {
        (a - b) as nat
    } else {
        0
    }
}

/// The span of no length.
pub fn zero() -> (d: Duration)
    ensures
        duration_nanos(d) == 0,
{
    Duration::new(0, 0)
}

/// `d` shortened by `rhs`, stopping at zero.
pub fn clamped_sub(d: Duration, rhs: Duration) -> (left: Duration)
    ensures
        duration_nanos(left) == nanos_less(duration_nanos(d), duration_nanos(rhs)),
{
    match d.checked_sub(rhs) {
        Some(left) => left,
        None => zero(),
    }
}

} // verus!
