//! Signed spans of time with nanosecond resolution.

use vstd::prelude::*;
use crate::arith::fits_i64;
use crate::arith::truncated_div;

verus! {

/// A span of time, negative or not, counted in nanoseconds. Its view is
/// that count.
#[derive(Debug, Clone, Copy, PartialEq, Eq, Structural)]
pub struct Duration {
    pub nanos: i64,
}

impl View for Duration {
    type V = int;

    open spec fn view(&self) -> int {
        self.nanos as int
    }
}

/// The whole seconds that a span of `nanos` nanoseconds is reported as: the
/// quotient by a second, and one more when a remainder is left. With the
/// quotient rounded down, as it is for mathematical integers, this is the
/// least number of seconds that covers the span.
pub open spec fn whole_seconds(nanos: int) -> int {
    if nanos % 1_000_000_000 == 0 {
        nanos / 1_000_000_000
    } else {
        nanos / 1_000_000_000 + 1
    }
}

impl Duration {
    /// The span of `nanos` nanoseconds.
    pub fn nanoseconds(nanos: i64) -> (d: Duration)
        ensures
            d@ == nanos,
    {
        Duration { nanos }
    }

    /// The span of `millis` milliseconds, which must not exceed what 64-bit
    /// nanoseconds hold.
    pub fn milliseconds(millis: i64) -> (d: Duration)
        requires
            fits_i64(millis * 1_000_000),
        ensures
            d@ == millis * 1_000_000,
    {
        Duration { nanos: millis * 1_000_000 }
    }

    /// The span of `seconds` seconds, which must not exceed what 64-bit
    /// nanoseconds hold.
    pub fn seconds(seconds: i64) -> (d: Duration)
        requires
            fits_i64(seconds * 1_000_000_000),
        ensures
            d@ == seconds * 1_000_000_000,
    {
        Duration { nanos: seconds * 1_000_000_000 }
    }

    /// The span in nanoseconds.
    pub fn num_nanoseconds(&self) -> (n: i64)
        ensures
            n == self@,
    {
        self.nanos
    }

    /// The whole microseconds in the span, rounded toward zero.
    pub fn num_microseconds(&self) -> (n: i64)
        ensures
            n == truncated_div(self@, 1_000),
    {
        self.nanos / 1_000
    }

    /// The whole milliseconds in the span, rounded toward zero.
    pub fn num_milliseconds(&self) -> (n: i64)
        ensures
            n == truncated_div(self@, 1_000_000),
    {
        self.nanos / 1_000_000
    }
}

/// The whole seconds that the span of `seconds` seconds and `nanos`
/// nanoseconds beyond them is reported as: the span rounded up to a whole
/// second, or `None` where that number does not fit in 64 bits.
pub fn round_up_to_second(seconds: i64, nanos: i32) -> (r: Option<i64>)
    ensures
        match r {
            Some(s) => {
                &&& s == whole_seconds(seconds * 1_000_000_000 + nanos)
                &&& 1_000_000_000 * (s - 1) < seconds * 1_000_000_000 + nanos <= 1_000_000_000 * s
            },
            None => !fits_i64(whole_seconds(seconds * 1_000_000_000 + nanos)),
        },
{
    let span: i128 = (seconds as i128) * 1_000_000_000 + (nanos as i128);
    let whole: i128 = if span % 1_000_000_000 > 0 {
        span / 1_000_000_000 + 1
    } else {
        span / 1_000_000_000
    };
    if whole < i64::MIN as i128 || whole > i64::MAX as i128 {
        None
    } else {
        Some(whole as i64)
    }
}

/// The span in seconds, as it is reported: rounded up to a whole second,
/// so that a single nanosecond beyond a whole second counts as a second
/// more. A span of whole seconds is reported as it is.
pub fn to_second(dur: Duration) -> (s: i64)
    ensures
        s == whole_seconds(dur@),
        1_000_000_000 * (s - 1) < dur@ <= 1_000_000_000 * s,
{
    let seconds: i64 = dur.nanos / 1_000_000_000;
    let nanos: i64 = dur.nanos % 1_000_000_000;
    round_up_to_second(seconds, nanos as i32).unwrap()
}

} // verus!
