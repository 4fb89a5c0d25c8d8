//! The rate limiter: what a quota comes to, the decision on one event, and
//! the limiter that keeps each key's state in a store.

use vstd::prelude::*;
use crate::arith::div_toward_zero;
use crate::arith::fits_i64;
use crate::arith::lemma_truncated_div_bounds;
use crate::arith::widening_mul;
use crate::clock::is_reading;
use crate::clock::now;
use crate::duration::Duration;
use crate::gcra::emission_interval;
use crate::gcra::micros;
use crate::gcra::pace;
use crate::gcra::Decision;
use crate::gcra::Pace;
use crate::store::ABSENT;

pub use crate::duration::to_second;
pub use crate::store::Store;
pub use crate::store::StoreI;

verus! {

/// Why no decision was made.
#[derive(Debug, Clone, Copy, PartialEq, Eq, Structural)]
pub enum RateError {
    /// The quota grants nothing: its emission interval is zero.
    ZeroRatesNoSupported,
    /// A value of the quota or of the decision does not fit in 64 bits.
    OutOfRange,
}

/// The decision on one event. Its view is the `Decision` with the same
/// numbers, the two spans in nanoseconds.
#[derive(Debug, Clone, Copy, PartialEq, Eq, Structural)]
pub struct RateLimitResult {
    /// Whether the event is admitted.
    pub allowed: bool,
    /// The ceiling of the quota: its burst and one.
    pub limit: i64,
    /// An estimate of the events that can still be admitted before the
    /// key's state has drained.
    pub remaining: i64,
    /// The span after which the key's state has drained.
    pub reset_after: Duration,
    /// The span after which the event would be admitted, or one second in
    /// the past where no retry is called for.
    pub retry_after: Duration,
}

impl View for RateLimitResult {
    type V = Decision;

    open spec fn view(&self) -> Decision {
        Decision {
            allowed: self.allowed,
            limit: self.limit as int,
            remaining: self.remaining as int,
            reset_after: self.reset_after@,
            retry_after: self.retry_after@,
        }
    }
}

/// What a quota comes to, in 64 bits. Its view is the `Pace` with the same
/// numbers.
#[derive(Debug, Clone, Copy, PartialEq, Eq, Structural)]
pub struct Rates {
    /// The time that one unit of quantity costs.
    pub emission_interval: Duration,
    /// How far a key's TAT may run ahead of the clock before events are
    /// throttled.
    pub delay_variation_tolerance: Duration,
    /// The ceiling that is reported to callers.
    pub limit: i64,
}

impl View for Rates {
    type V = Pace;

    open spec fn view(&self) -> Pace {
        Pace {
            emission_interval: self.emission_interval@,
            delay_variation_tolerance: self.delay_variation_tolerance@,
            limit: self.limit as int,
        }
    }
}

/// The TAT that an event meets: the one that is held for its key, or `now`
/// where none is held.
pub open spec fn met_tat(prior: Option<i64>, now: int) -> int {
    match prior {
        Some(tat) => tat as int,
        None => now,
    }
}

/// The emission interval of `n` units per `seconds` seconds, or `None` when
/// it does not fit in 64-bit nanoseconds.
pub fn per_period(n: i64, seconds: i64) -> (r: Option<Duration>)
    ensures
        match r {
            Some(d) => d@ == emission_interval(n as int, seconds as int),
            None => !fits_i64(emission_interval(n as int, seconds as int)),
        },
{
    if n == 0 {
        return Some(Duration::nanoseconds(0));
    }
    let period: i128 = (seconds as i128) * 1_000_000_000;
    let interval: i128 = div_toward_zero(period, n as i128);
    if interval < i64::MIN as i128 || interval > i64::MAX as i128 {
        None
    } else {
        Some(Duration::nanoseconds(interval as i64))
    }
}

/// What the quota of `count` units per `seconds` seconds with a burst of
/// `burst` comes to. A quota whose emission interval is zero is refused as
/// `ZeroRatesNoSupported`; any other whose emission interval, tolerance or
/// limit does not fit in 64 bits is refused as `OutOfRange`.
pub open spec fn quota(burst: i64, count: i64, seconds: i64) -> Result<Pace, RateError> {
    let p = pace(burst as int, count as int, seconds as int);
    if p.emission_interval == 0 {
        Err(RateError::ZeroRatesNoSupported)
    } else if !p.fits() {
        Err(RateError::OutOfRange)
    } else {
        Ok(p)
    }
}

/// Works out what a quota comes to, as `quota` states it.
pub fn reflesh(burst: i64, count: i64, seconds: i64) -> (r: Result<Rates, RateError>)
    ensures
        match r {
            Ok(rates) => quota(burst, count, seconds) == Ok::<Pace, RateError>(rates@),
            Err(e) => quota(burst, count, seconds) == Err::<Pace, RateError>(e),
        },
{
    let interval = match per_period(count, seconds) {
        Some(d) => d,
        None => {
            return Err(RateError::OutOfRange);
        },
    };
    if interval.nanos == 0 {
        return Err(RateError::ZeroRatesNoSupported);
    }
    if burst == i64::MAX {
        return Err(RateError::OutOfRange);
    }
    let limit: i64 = burst + 1;
    let tolerance: i128 = widening_mul(interval.nanos, limit);
    if tolerance < i64::MIN as i128 || tolerance > i64::MAX as i128 {
        return Err(RateError::OutOfRange);
    }
    Ok(
        Rates {
            emission_interval: interval,
            delay_variation_tolerance: Duration::nanoseconds(tolerance as i64),
            limit,
        },
    )
}

/// The decision on one event together with what it leaves to be written.
#[derive(Debug, Clone, Copy)]
pub struct Verdict {
    /// The decision.
    pub result: RateLimitResult,
    /// The TAT to hold for the key from now on, present exactly when the
    /// event is admitted.
    pub tat: Option<i64>,
}

/// Decides on an event of `quantity` units that arrives at the instant
/// `now`, in nanoseconds since the epoch, for a key that holds the TAT
/// `prior`. The event is refused as `OutOfRange` when `now`, a span of the
/// decision or the TAT to be written does not fit in 64 bits.
pub fn decide(
    rates: Rates,
    quantity: i64,
    prior: Option<i64>,
    now: i128,
) -> (r: Result<Verdict, RateError>)
    ensures
        match r {
            Ok(v) => {
                &&& rates@.step_fits(quantity as int, met_tat(prior, now as int), now as int)
                &&& v.result@ == rates@.decision(
                    quantity as int,
                    met_tat(prior, now as int),
                    now as int,
                )
                &&& v.tat == if v.result.allowed {
                    Some(
                        rates@.new_tat(quantity as int, met_tat(prior, now as int), now as int)
                            as i64,
                    )
                } else {
                    None::<i64>
                }
            },
            Err(e) => {
                &&& e == RateError::OutOfRange
                &&& !rates@.step_fits(quantity as int, met_tat(prior, now as int), now as int)
            },
        },
{
    if now < i64::MIN as i128 || now > i64::MAX as i128 {
        return Err(RateError::OutOfRange);
    }
    let interval: i128 = rates.emission_interval.nanos as i128;
    let tolerance: i128 = rates.delay_variation_tolerance.nanos as i128;
    let tat: i128 = match prior {
        Some(t) => t as i128,
        None => now,
    };
    let increment: i128 = widening_mul(quantity, rates.emission_interval.nanos);
    let new_tat: i128 = if now > tat {
        now + increment
    } else {
        tat + increment
    };
    let allow_at: i128 = new_tat - tolerance;
    let diff: i128 = now - allow_at;
    let allowed = diff >= 0;
    let ttl: i128 = if allowed {
        new_tat - now
    } else {
        tat - now
    };
    let retry_after: i128 = if !allowed && increment <= tolerance {
        -diff
    } else {
        Duration::seconds(-1).nanos as i128
    };
    if ttl < i64::MIN as i128 || ttl > i64::MAX as i128 {
        return Err(RateError::OutOfRange);
    }
    if retry_after < i64::MIN as i128 || retry_after > i64::MAX as i128 {
        return Err(RateError::OutOfRange);
    }
    if allowed && (new_tat < i64::MIN as i128 || new_tat > i64::MAX as i128) {
        return Err(RateError::OutOfRange);
    }
    let next: i128 = tolerance - ttl;
    let interval_micros: i128 = rates.emission_interval.num_microseconds() as i128;
    let remaining: i128 = if next > -interval && interval_micros != 0 {
        proof {
            lemma_truncated_div_bounds(micros(next as int), micros(interval as int));
        }
        div_toward_zero(next / 1_000, interval_micros)
    } else {
        0
    };
    Ok(
        Verdict {
            result: RateLimitResult {
                allowed,
                limit: rates.limit,
                remaining: remaining as i64,
                reset_after: Duration::nanoseconds(ttl as i64),
                retry_after: Duration::nanoseconds(retry_after as i64),
            },
            tat: if allowed {
                Some(new_tat as i64)
            } else {
                None
            },
        },
    )
}

/// The TAT that the value `held`, as a store hands it back, stands for:
/// none for `ABSENT`.
pub open spec fn held_tat(held: i64) -> Option<i64> {
    if held == ABSENT {
        None
    } else {
        Some(held)
    }
}

/// A limiter that keeps each key's TAT in a store of type `T`.
pub struct RateLimiter<T> {
    /// The store in which the limiter keeps its keys' states.
    pub store: T,
}

impl<T: StoreI> RateLimiter<T> {
    /// What a call does that has read `held` for `key` and then the instant
    /// `now` off the clock, for a quota that came to `rates`: it refuses
    /// what does not fit in 64 bits and leaves the store as it is;
    /// otherwise it returns the decision, and writes the new TAT with the
    /// decision's `reset_after` as its time to live when the event is
    /// admitted, and leaves the store as it is when it is not.
    pub open spec fn outcome(
        pre: T,
        post: T,
        key: Seq<char>,
        rates: Pace,
        quantity: int,
        held: i64,
        now: int,
        r: Result<RateLimitResult, RateError>,
    ) -> bool {
        let tat = met_tat(held_tat(held), now);
        if !rates.step_fits(quantity, tat, now) {
            r == Err::<RateLimitResult, RateError>(RateError::OutOfRange) && post == pre
        } else {
            &&& r is Ok
            &&& r->Ok_0@ == rates.decision(quantity, tat, now)
            &&& if rates.allowed(quantity, tat, now) {
                pre.writes(
                    &post,
                    key,
                    rates.new_tat(quantity, tat, now) as i64,
                    r->Ok_0.reset_after,
                )
            } else {
                post == pre
            }
        }
    }

    /// A limiter over `store`.
    pub fn new(store: T) -> (limiter: Self)
        ensures
            limiter.store == store,
    {
        RateLimiter { store }
    }

    /// Ends a call that has read `held` for `key` and takes `now` for the
    /// instant of the event: decides, and writes the new TAT if the event
    /// is admitted.
    fn settle(
        &mut self,
        key: String,
        rates: Rates,
        quantity: i64,
        held: i64,
        now: i128,
    ) -> (r: Result<RateLimitResult, RateError>)
        ensures
            Self::outcome(
                old(self).store,
                final(self).store,
                key@,
                rates@,
                quantity as int,
                held,
                now as int,
                r,
            ),
    {
        let prior = if held == ABSENT {
            None
        } else {
            Some(held)
        };
        match decide(rates, quantity, prior, now) {
            Err(e) => Err(e),
            Ok(verdict) => {
                match verdict.tat {
                    Some(tat) => {
                        self.store.set(key, tat, verdict.result.reset_after);
                    },
                    None => {},
                }
                Ok(verdict.result)
            },
        }
    }

    /// Decides on an event of `quantity` units for `key` that arrives at
    /// the instant `now`, in nanoseconds since the epoch, under the quota of
    /// `count` units per `seconds` seconds with a burst of `burst`.
    ///
    /// A quota that `quota` refuses is refused here, before the store is
    /// read, and the store stays as it is. Otherwise the key's TAT is read
    /// from the store, and the call ends as `outcome` says of what was read.
    pub fn rate_limit_at(
        &mut self,
        key: String,
        burst: i64,
        count: i64,
        seconds: i64,
        quantity: i64,
        now: i128,
    ) -> (r: Result<RateLimitResult, RateError>)
        ensures
            match quota(burst, count, seconds) {
                Err(e) => {
                    &&& r == Err::<RateLimitResult, RateError>(e)
                    &&& final(self).store == old(self).store
                },
                Ok(rates) => exists|held: i64| #[trigger]
                    old(self).store.reads(key@, held) && Self::outcome(
                        old(self).store,
                        final(self).store,
                        key@,
                        rates,
                        quantity as int,
                        held,
                        now as int,
                        r,
                    ),
            },
    {
        let rates = match reflesh(burst, count, seconds) {
            Ok(rates) => rates,
            Err(e) => {
                return Err(e);
            },
        };
        let held = self.store.get(key.as_str());
        assert(old(self).store.reads(key@, held));
        self.settle(key, rates, quantity, held, now)
    }

    /// Decides on an event of `quantity` units for `key` that arrives now,
    /// under the quota of `count` units per `seconds` seconds with a burst
    /// of `burst`. It is `rate_limit_at` at the instant that the clock
    /// shows once the store has been read.
    pub fn rate_limit(
        &mut self,
        key: String,
        burst: i64,
        count: i64,
        seconds: i64,
        quantity: i64,
    ) -> (r: Result<RateLimitResult, RateError>)
        ensures
            match quota(burst, count, seconds) {
                Err(e) => {
                    &&& r == Err::<RateLimitResult, RateError>(e)
                    &&& final(self).store == old(self).store
                },
                Ok(rates) => exists|held: i64, now: int| #[trigger]
                    old(self).store.reads(key@, held) && #[trigger] is_reading(now)
                        && Self::outcome(
                        old(self).store,
                        final(self).store,
                        key@,
                        rates,
                        quantity as int,
                        held,
                        now,
                        r,
                    ),
            },
    {
        let rates = match reflesh(burst, count, seconds) {
            Ok(rates) => rates,
            Err(e) => {
                return Err(e);
            },
        };
        let held = self.store.get(key.as_str());
        let now = now();
        assert(old(self).store.reads(key@, held) && is_reading(now as int));
        self.settle(key, rates, quantity, held, now)
    }
}

} // verus!
