//! The generic cell rate algorithm over mathematical integers.
//!
//! Instants are nanoseconds since the Unix epoch and spans are nanoseconds.
//! A key's state is one instant, its theoretical arrival time (TAT): the
//! instant at which the next event would arrive if events kept strictly to
//! the steady rate. A key without state has the TAT `now`.

use vstd::prelude::*;
use crate::arith::fits_i64;
use crate::arith::truncated_div;

verus! {

/// The span reported as `retry_after` when no retry is called for: one
/// second in the past.
pub open spec fn no_retry() -> int {
    -1_000_000_000
}

/// The whole microseconds in `nanos` nanoseconds, rounded toward zero.
pub open spec fn micros(nanos: int) -> int {
    truncated_div(nanos, 1_000)
}

/// The time that one unit of `count` costs when `count` units are granted
/// per `seconds` seconds: the period in nanoseconds divided by `count`,
/// rounded toward zero. It is 0 when `count` is 0.
pub open spec fn emission_interval(count: int, seconds: int) -> int {
    truncated_div(seconds * 1_000_000_000, count)
}

/// What a quota comes to: the values by which events are judged.
pub struct Pace {
    /// The time that one unit of quantity costs.
    pub emission_interval: int,
    /// How far the TAT may run ahead of the clock before events are
    /// throttled.
    pub delay_variation_tolerance: int,
    /// The ceiling that is reported to callers.
    pub limit: int,
}

/// The pace of `count` units per `seconds` seconds with `burst` further
/// events allowed on top.
pub open spec fn pace(burst: int, count: int, seconds: int) -> Pace {
    Pace {
        emission_interval: emission_interval(count, seconds),
        delay_variation_tolerance: emission_interval(count, seconds) * (burst + 1),
        limit: burst + 1,
    }
}

/// What is decided about one event.
pub struct Decision {
    /// Whether the event is admitted.
    pub allowed: bool,
    /// The ceiling of the quota.
    pub limit: int,
    /// An estimate of the events that can still be admitted before the
    /// state has drained.
    pub remaining: int,
    /// The span after which the key's state has drained.
    pub reset_after: int,
    /// The span after which the event would be admitted, or `no_retry()`.
    pub retry_after: int,
}

impl Pace {
    /// Whether the three values fit in 64 bits.
    pub open spec fn fits(self) -> bool {
        &&& fits_i64(self.emission_interval)
        &&& fits_i64(self.delay_variation_tolerance)
        &&& fits_i64(self.limit)
    }

    /// The time that an event of `quantity` units costs.
    pub open spec fn increment(self, quantity: int) -> int {
        quantity * self.emission_interval
    }

    /// The TAT that admitting the event would leave: the later of `now` and
    /// `tat`, moved on by the event's cost.
    pub open spec fn new_tat(self, quantity: int, tat: int, now: int) -> int {
        (if now > tat { now } else { tat }) + self.increment(quantity)
    }

    /// The earliest instant at which the event may arrive.
    pub open spec fn allow_at(self, quantity: int, tat: int, now: int) -> int {
        self.new_tat(quantity, tat, now) - self.delay_variation_tolerance
    }

    /// Whether the event is admitted: it does not arrive before it may.
    pub open spec fn allowed(self, quantity: int, tat: int, now: int) -> bool {
        now - self.allow_at(quantity, tat, now) >= 0
    }

    /// The span until the key's state has drained: up to the new TAT when
    /// the event is admitted, up to the TAT it met when it is not.
    pub open spec fn ttl(self, quantity: int, tat: int, now: int) -> int {
        if self.allowed(quantity, tat, now) {
            self.new_tat(quantity, tat, now) - now
        } else {
            tat - now
        }
    }

    /// The span to wait before the event would be admitted. It is
    /// `no_retry()` for an admitted event and for one that costs more than
    /// the tolerance, which no wait would let through.
    pub open spec fn retry_after(self, quantity: int, tat: int, now: int) -> int {
        if !self.allowed(quantity, tat, now) && self.increment(quantity)
            <= self.delay_variation_tolerance {
            self.allow_at(quantity, tat, now) - now
        } else {
            no_retry()
        }
    }

    /// The part of the tolerance that is left once the state has been
    /// charged.
    pub open spec fn next(self, quantity: int, tat: int, now: int) -> int {
        self.delay_variation_tolerance - self.ttl(quantity, tat, now)
    }

    /// The events still to be had: the tolerance that is left over the
    /// emission interval, both in whole microseconds, rounded toward zero.
    /// It is 0 when what is left lies an emission interval or more below
    /// zero, and when the emission interval is under a microsecond.
    pub open spec fn remaining(self, quantity: int, tat: int, now: int) -> int {
        if self.next(quantity, tat, now) > -self.emission_interval && micros(
            self.emission_interval,
        ) != 0 {
            truncated_div(micros(self.next(quantity, tat, now)), micros(self.emission_interval))
        } else {
            0
        }
    }

    /// The decision on an event of `quantity` units that arrives at `now`
    /// and meets the TAT `tat`.
    pub open spec fn decision(self, quantity: int, tat: int, now: int) -> Decision {
        Decision {
            allowed: self.allowed(quantity, tat, now),
            limit: self.limit,
            remaining: self.remaining(quantity, tat, now),
            reset_after: self.ttl(quantity, tat, now),
            retry_after: self.retry_after(quantity, tat, now),
        }
    }

    /// Whether the instant, the two spans of the decision and, for an
    /// admitted event, the new TAT fit in 64 bits.
    pub open spec fn step_fits(self, quantity: int, tat: int, now: int) -> bool {
        &&& fits_i64(now)
        &&& fits_i64(self.ttl(quantity, tat, now))
        &&& fits_i64(self.retry_after(quantity, tat, now))
        &&& self.allowed(quantity, tat, now) ==> fits_i64(self.new_tat(quantity, tat, now))
    }
}

/// The TAT that a key holds once the first `n` of the events that arrive
/// at the instants `arrivals`, each of `quantity` units, have been admitted
/// one after another, where it held `tat` before them.
pub open spec fn tat_after(rates: Pace, quantity: int, tat: int, arrivals: Seq<int>, n: nat) -> int
    decreases n,
{
    if n == 0 {
        tat
    } else {
        rates.new_tat(
            quantity,
            tat_after(rates, quantity, tat, arrivals, (n - 1) as nat),
            arrivals[n - 1],
        )
    }
}

} // verus!
