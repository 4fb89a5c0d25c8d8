//! What holds of the algorithm whatever the quota, the clock and the store.

use vstd::prelude::*;
use crate::gcra::emission_interval;
use crate::gcra::micros;
use crate::gcra::no_retry;
use crate::gcra::pace;
use crate::gcra::tat_after;
use crate::gcra::Pace;
use crate::rate_limiter::quota;
use crate::rate_limiter::RateError;
use crate::rate_limiter::RateLimitResult;
use crate::rate_limiter::RateLimiter;
use crate::store::key_reads_as_held;
use crate::store::Store;
use crate::store::StoreI;

verus! {

/// A quota of no units, or over a period of no length, is refused as
/// `ZeroRatesNoSupported`, whatever its burst.
pub proof fn zero_rate_is_refused(burst: i64, count: i64, seconds: i64)
    requires
        count == 0 || seconds == 0,
    ensures
        quota(burst, count, seconds) == Err::<Pace, RateError>(RateError::ZeroRatesNoSupported),
{
    assert(emission_interval(count as int, seconds as int) == 0) by {
        if count != 0 {
            let c: int = if count < 0 { -count } else { count as int };
            assert(0int / c == 0) by (nonlinear_arith)
                requires
                    c > 0,
            ;
        }
    }
}

/// An event is admitted exactly when it costs no more than the tolerance
/// and the TAT that it meets, moved on by its cost, is no further ahead of
/// it than the tolerance.
pub proof fn allowed_within_tolerance(rates: Pace, quantity: int, tat: int, now: int)
    ensures
        rates.allowed(quantity, tat, now) <==> rates.increment(quantity)
            <= rates.delay_variation_tolerance && tat + rates.increment(quantity) <= now
            + rates.delay_variation_tolerance,
{
}

/// On a key that holds no state an event meets the TAT `now`. It is then
/// admitted exactly when it costs no more than the tolerance; so the first
/// event on a key is admitted whenever its quantity can fit at all.
pub proof fn first_event_is_allowed(rates: Pace, quantity: int, now: int)
    ensures
        rates.allowed(quantity, now, now) <==> rates.increment(quantity)
            <= rates.delay_variation_tolerance,
        rates.allowed(quantity, now, now) ==> rates.retry_after(quantity, now, now) == no_retry(),
        rates.ttl(quantity, now, now) == if rates.allowed(quantity, now, now) {
            rates.increment(quantity)
        } else {
            0
        },
{
}

/// The first event on a key for which a store in memory holds nothing is
/// admitted, if it costs no more than the tolerance and the decision on it
/// fits in 64 bits: whatever the limiter read and however the call ended, it
/// ended with the decision for a key without state, and that admits.
pub proof fn first_call_is_allowed(
    pre: Store,
    post: Store,
    key: Seq<char>,
    rates: Pace,
    quantity: int,
    held: i64,
    now: int,
    r: Result<RateLimitResult, RateError>,
)
    requires
        !pre@.contains_key(key),
        pre.reads(key, held),
        RateLimiter::<Store>::outcome(pre, post, key, rates, quantity, held, now, r),
        rates.increment(quantity) <= rates.delay_variation_tolerance,
        rates.step_fits(quantity, now, now),
    ensures
        r is Ok,
        r->Ok_0@ == rates.decision(quantity, now, now),
        r->Ok_0.allowed,
{
    key_reads_as_held(pre, key, held);
}

/// A call that does not admit its event leaves the store as it was: only
/// a call that ends with an admitted event has written to it.
pub proof fn refusal_leaves_the_store<T: StoreI>(
    pre: T,
    post: T,
    key: Seq<char>,
    rates: Pace,
    quantity: int,
    held: i64,
    now: int,
    r: Result<RateLimitResult, RateError>,
)
    requires
        RateLimiter::<T>::outcome(pre, post, key, rates, quantity, held, now, r),
        r is Err || !r->Ok_0.allowed,
    ensures
        post == pre,
{
}

/// A product of two numbers that are not negative is not negative.
proof fn product_is_not_negative(a: int, b: int)
    requires
        a >= 0,
        b >= 0,
    ensures
        a * b >= 0,
{
    assert(a * b >= 0) by (nonlinear_arith)
        requires
            a >= 0,
            b >= 0,
    ;
}

/// Admitting an event never moves a key's TAT back: the new TAT is not
/// before the one that the event met, nor before the event itself.
pub proof fn tat_never_rewinds(rates: Pace, quantity: int, tat: int, now: int)
    requires
        rates.emission_interval >= 0,
        quantity >= 0,
    ensures
        rates.new_tat(quantity, tat, now) >= tat,
        rates.new_tat(quantity, tat, now) >= now,
{
    product_is_not_negative(quantity, rates.emission_interval);
}

/// `reset_after` is not negative: for an admitted event it is at least the
/// event's cost, and for a refused one it is the span up to the TAT that
/// the event met, which a store hands out only while it is still to come.
pub proof fn reset_after_is_not_negative(rates: Pace, quantity: int, tat: int, now: int)
    requires
        rates.emission_interval >= 0,
        quantity >= 0,
        rates.allowed(quantity, tat, now) || tat >= now,
    ensures
        rates.ttl(quantity, tat, now) >= 0,
        rates.allowed(quantity, tat, now) ==> rates.ttl(quantity, tat, now) >= rates.increment(
            quantity,
        ),
{
    product_is_not_negative(quantity, rates.emission_interval);
}

/// Once the span `retry_after` of a refusal has passed, the same event is
/// admitted, and so is one of another quantity that fits the tolerance,
/// once the difference in cost has passed as well. This holds whether the
/// key still holds the TAT that the refused event met or has lost it since.
pub proof fn retry_is_allowed(
    rates: Pace,
    quantity: int,
    tat: int,
    now: int,
    later_quantity: int,
    later: int,
)
    requires
        !rates.allowed(quantity, tat, now),
        rates.increment(quantity) <= rates.delay_variation_tolerance,
        rates.increment(later_quantity) <= rates.delay_variation_tolerance,
        later >= now + rates.retry_after(quantity, tat, now) + rates.increment(later_quantity)
            - rates.increment(quantity),
    ensures
        rates.retry_after(quantity, tat, now) > 0,
        rates.allowed(later_quantity, tat, later),
        rates.allowed(later_quantity, later, later),
{
}

/// Events at the steady rate are admitted: once an event has been
/// admitted, one of the same quantity that arrives an event's cost later, or
/// later than that, is admitted too.
pub proof fn steady_rate_is_allowed(rates: Pace, quantity: int, tat: int, now: int, later: int)
    requires
        rates.allowed(quantity, tat, now),
        later >= now + rates.increment(quantity),
    ensures
        rates.allowed(quantity, rates.new_tat(quantity, tat, now), later),
{
}

/// The quotient of numbers that are not negative grows with the dividend,
/// by one at least for each whole divisor added.
proof fn quotient_steps_down(a: int, b: int, d: int)
    requires
        0 <= b,
        d > 0,
        b + d <= a,
    ensures
        0 <= b / d,
        b / d + 1 <= a / d,
{
    assert(0 <= b / d && b / d + 1 <= a / d) by (nonlinear_arith)
        requires
            0 <= b,
            d > 0,
            b + d <= a,
    ;
}

/// A quotient of numbers that are not negative is at most `bound` when the
/// dividend is at most `bound` divisors.
proof fn quotient_is_bounded(a: int, d: int, bound: int)
    requires
        0 <= a <= d * bound,
        d > 0,
    ensures
        0 <= a / d <= bound,
{
    assert(0 <= a / d <= bound) by (nonlinear_arith)
        requires
            0 <= a <= d * bound,
            d > 0,
    ;
}

/// A quotient of numbers that are not negative is below `bound` when the
/// dividend is below `bound` divisors.
proof fn quotient_is_below(a: int, d: int, bound: int)
    requires
        0 <= a < d * bound,
        d > 0,
    ensures
        0 <= a / d < bound,
{
    assert(0 <= a / d < bound) by (nonlinear_arith)
        requires
            0 <= a < d * bound,
            d > 0,
    ;
}

/// `remaining` is not negative for an admitted event, nor for a refused
/// one that met a TAT no further ahead of it than the tolerance. Under a
/// quota whose emission interval is a whole number of microseconds it is
/// below the limit for an admitted event of one unit or more and for a
/// refused event that costs no more than the tolerance, and at most the
/// limit for any refused event that met a TAT not behind it.
pub proof fn remaining_is_bounded(
    burst: int,
    count: int,
    seconds: int,
    quantity: int,
    tat: int,
    now: int,
)
    requires
        emission_interval(count, seconds) > 0,
        burst >= 0,
    ensures
        ({
            let rates = pace(burst, count, seconds);
            let allowed = rates.allowed(quantity, tat, now);
            let remaining = rates.remaining(quantity, tat, now);
            let whole = rates.emission_interval % 1000 == 0;
            &&& allowed || tat <= now + rates.delay_variation_tolerance ==> remaining >= 0
            &&& allowed && whole && quantity >= 1 ==> remaining < rates.limit
            &&& !allowed && whole && quantity <= burst + 1 ==> remaining < rates.limit
            &&& !allowed && whole && tat >= now ==> remaining <= rates.limit
        }),
{
    let rates = pace(burst, count, seconds);
    let interval = rates.emission_interval;
    let next = rates.next(quantity, tat, now);
    if micros(interval) != 0 {
        if next >= 0 {
            assert(0 <= micros(next) / micros(interval)) by (nonlinear_arith)
                requires
                    micros(next) >= 0,
                    micros(interval) > 0,
            ;
        }
        if interval % 1000 == 0 {
            let unit = micros(interval);
            assert(interval * (burst + 1) == 1000 * (unit * (burst + 1))) by (nonlinear_arith)
                requires
                    interval == 1000 * unit,
            ;
            assert(interval * burst == 1000 * (unit * burst)) by (nonlinear_arith)
                requires
                    interval == 1000 * unit,
            ;
            assert(interval * (burst + 1) == interval * burst + interval) by (nonlinear_arith);
            if rates.allowed(quantity, tat, now) && quantity >= 1 {
                product_is_not_negative(quantity - 1, interval);
                assert((quantity - 1) * interval == quantity * interval - interval)
                    by (nonlinear_arith);
                quotient_is_bounded(micros(next), unit, burst);
            }
            if !rates.allowed(quantity, tat, now) && tat >= now {
                if next >= 0 {
                    quotient_is_bounded(micros(next), unit, burst + 1);
                } else if next > -interval {
                    assert((-micros(next)) / unit == 0) by (nonlinear_arith)
                        requires
                            0 <= -micros(next) < unit,
                    ;
                }
            }
            if !rates.allowed(quantity, tat, now) && quantity <= burst + 1 {
                assert(quantity * interval <= interval * (burst + 1)) by (nonlinear_arith)
                    requires
                        quantity <= burst + 1,
                        interval > 0,
                ;
                if next >= 0 {
                    quotient_is_below(micros(next), unit, burst + 1);
                }
            }
        }
    }
}

/// Of two events on one key that are both admitted, the second arriving at
/// the same instant as the first, the second reports fewer remaining than
/// the first, or none at all.
pub proof fn remaining_decreases(
    rates: Pace,
    first_quantity: int,
    second_quantity: int,
    tat: int,
    now: int,
)
    requires
        rates.emission_interval > 0,
        first_quantity >= 1,
        second_quantity >= 1,
        rates.allowed(first_quantity, tat, now),
        rates.allowed(second_quantity, rates.new_tat(first_quantity, tat, now), now),
    ensures
        ({
            let first = rates.remaining(first_quantity, tat, now);
            let second = rates.remaining(
                second_quantity,
                rates.new_tat(first_quantity, tat, now),
                now,
            );
            0 <= second && (second < first || second == 0)
        }),
{
    let interval = rates.emission_interval;
    let between = rates.new_tat(first_quantity, tat, now);
    let first_next = rates.next(first_quantity, tat, now);
    let second_next = rates.next(second_quantity, between, now);
    product_is_not_negative(first_quantity - 1, interval);
    product_is_not_negative(second_quantity - 1, interval);
    assert((first_quantity - 1) * interval == first_quantity * interval - interval)
        by (nonlinear_arith);
    assert((second_quantity - 1) * interval == second_quantity * interval - interval)
        by (nonlinear_arith);
    assert(0 <= second_next && second_next + interval <= first_next);
    if micros(interval) != 0 {
        quotient_steps_down(micros(first_next), micros(second_next), micros(interval));
    }
}

/// Burst capacity: of events of `quantity` units that arrive at one instant
/// on a key that was without state, those are admitted whose quantities,
/// together with the quantities before them, come to no more than the limit.
/// A key without state stands at the TAT `now`; each event that is admitted
/// at `now` moves the TAT on by its cost; and where the TAT stands at `now`
/// and the cost of `admitted` events, the next event is admitted exactly
/// when `admitted + 1` times the quantity is no more than the limit.
pub proof fn burst_is_exhausted(
    burst: int,
    count: int,
    seconds: int,
    quantity: int,
    now: int,
    admitted: nat,
)
    requires
        emission_interval(count, seconds) > 0,
        quantity >= 1,
    ensures
        ({
            let rates = pace(burst, count, seconds);
            let tat = now + admitted * rates.increment(quantity);
            &&& rates.new_tat(quantity, tat, now) == now + (admitted + 1) * rates.increment(
                quantity,
            )
            &&& rates.allowed(quantity, tat, now) <==> (admitted + 1) * quantity <= burst + 1
        }),
{
    let rates = pace(burst, count, seconds);
    let interval = rates.emission_interval;
    let cost = rates.increment(quantity);
    let tat = now + admitted * cost;
    product_is_not_negative(quantity, interval);
    product_is_not_negative(admitted as int, cost);
    assert(rates.new_tat(quantity, tat, now) == now + (admitted + 1) * cost) by (nonlinear_arith)
        requires
            rates.new_tat(quantity, tat, now) == tat + cost,
            tat == now + admitted * cost,
    ;
    assert(((admitted + 1) * cost <= interval * (burst + 1)) <==> ((admitted + 1) * quantity
        <= burst + 1)) by (nonlinear_arith)
        requires
            cost == quantity * interval,
            interval > 0,
    ;
}

/// What a run of admitted events builds up: when each event arrives sooner
/// after the one before than an event costs, the TAT after `n` of them is
/// ahead of the last of them by one event's cost and a nanosecond for every
/// event before it.
proof fn run_builds_up(rates: Pace, quantity: int, tat: int, arrivals: Seq<int>, n: nat)
    requires
        1 <= n <= arrivals.len(),
        forall|i: int|
            0 < i < arrivals.len() ==> #[trigger] arrivals[i] < arrivals[i - 1] + rates.increment(
                quantity,
            ),
    ensures
        tat_after(rates, quantity, tat, arrivals, n) - arrivals[n - 1] >= rates.increment(quantity)
            + n - 1,
    decreases n,
{
    if n > 1 {
        run_builds_up(rates, quantity, tat, arrivals, (n - 1) as nat);
        assert(arrivals[n - 1] < arrivals[n - 1 - 1] + rates.increment(quantity));
    }
}

/// Events that are submitted faster than the steady rate are not admitted
/// without end: when each arrives sooner after the one before than an event
/// costs, and each is admitted, there are no more of them than the
/// nanoseconds by which the tolerance exceeds one event's cost, and one. So
/// of more events than that, submitted at such a pace, one is refused.
pub proof fn admissions_are_bounded(rates: Pace, quantity: int, tat: int, arrivals: Seq<int>)
    requires
        forall|i: int|
            0 < i < arrivals.len() ==> #[trigger] arrivals[i] < arrivals[i - 1] + rates.increment(
                quantity,
            ),
        forall|n: nat|
            n < arrivals.len() ==> rates.allowed(
                quantity,
                #[trigger] tat_after(rates, quantity, tat, arrivals, n),
                arrivals[n as int],
            ),
    ensures
        arrivals.len() > 0 ==> arrivals.len() - 1 + rates.increment(quantity)
            <= rates.delay_variation_tolerance,
{
    if arrivals.len() > 0 {
        let n = arrivals.len();
        let last = (n - 1) as nat;
        run_builds_up(rates, quantity, tat, arrivals, n);
        assert(rates.allowed(
            quantity,
            tat_after(rates, quantity, tat, arrivals, last),
            arrivals[last as int],
        ));
    }
}

} // verus!
