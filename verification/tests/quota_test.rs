use rate_limiter::duration::Duration;
use rate_limiter::rate_limiter::per_period;
use rate_limiter::rate_limiter::reflesh;
use rate_limiter::rate_limiter::RateError;

#[test]
fn per_period_divides_the_period_by_the_count() {
    assert_eq!(per_period(1, 1), Some(Duration::nanoseconds(1_000_000_000)));
    assert_eq!(per_period(4, 1), Some(Duration::nanoseconds(250_000_000)));
    assert_eq!(per_period(100, 60), Some(Duration::nanoseconds(600_000_000)));
    assert_eq!(per_period(1, 3600), Some(Duration::nanoseconds(3_600_000_000_000)));
}

#[test]
fn per_period_rounds_toward_zero() {
    assert_eq!(per_period(3, 1), Some(Duration::nanoseconds(333_333_333)));
    assert_eq!(per_period(7, 2), Some(Duration::nanoseconds(285_714_285)));
    assert_eq!(per_period(-3, 1), Some(Duration::nanoseconds(-333_333_333)));
    assert_eq!(per_period(3, -1), Some(Duration::nanoseconds(-333_333_333)));
    assert_eq!(per_period(-3, -1), Some(Duration::nanoseconds(333_333_333)));
}

#[test]
fn per_period_is_zero_for_no_count_no_period_or_too_many() {
    assert_eq!(per_period(0, 1), Some(Duration::nanoseconds(0)));
    assert_eq!(per_period(0, i64::MAX), Some(Duration::nanoseconds(0)));
    assert_eq!(per_period(1, 0), Some(Duration::nanoseconds(0)));
    assert_eq!(per_period(1_000_000_001, 1), Some(Duration::nanoseconds(0)));
    assert_eq!(per_period(1_000_000_000, 1), Some(Duration::nanoseconds(1)));
}

#[test]
fn per_period_gives_none_beyond_64_bits() {
    assert_eq!(
        per_period(1, 9_223_372_036),
        Some(Duration::nanoseconds(9_223_372_036_000_000_000))
    );
    assert_eq!(per_period(1, 9_223_372_037), None);
    assert_eq!(per_period(1, i64::MAX), None);
    assert_eq!(per_period(-1, i64::MIN), None);
    assert_eq!(per_period(i64::MIN, i64::MIN), Some(Duration::nanoseconds(1_000_000_000)));
    assert_eq!(
        per_period(2_000_000_000, i64::MAX),
        Some(Duration::nanoseconds(4_611_686_018_427_387_903))
    );
}

#[test]
fn reflesh_gives_interval_tolerance_and_limit() {
    let rates = reflesh(10, 1, 1).unwrap();
    assert_eq!(rates.emission_interval, Duration::nanoseconds(1_000_000_000));
    assert_eq!(rates.delay_variation_tolerance, Duration::nanoseconds(11_000_000_000));
    assert_eq!(rates.limit, 11);
    let rates = reflesh(0, 2, 1).unwrap();
    assert_eq!(rates.emission_interval, Duration::nanoseconds(500_000_000));
    assert_eq!(rates.delay_variation_tolerance, Duration::nanoseconds(500_000_000));
    assert_eq!(rates.limit, 1);
    let rates = reflesh(4, 3, 1).unwrap();
    assert_eq!(rates.emission_interval, Duration::nanoseconds(333_333_333));
    assert_eq!(rates.delay_variation_tolerance, Duration::nanoseconds(1_666_666_665));
    assert_eq!(rates.limit, 5);
}

#[test]
fn reflesh_refuses_zero_rates() {
    assert_eq!(reflesh(10, 0, 1), Err(RateError::ZeroRatesNoSupported));
    assert_eq!(reflesh(10, 1, 0), Err(RateError::ZeroRatesNoSupported));
    assert_eq!(reflesh(10, 0, 0), Err(RateError::ZeroRatesNoSupported));
    assert_eq!(reflesh(10, 1_000_000_001, 1), Err(RateError::ZeroRatesNoSupported));
    assert_eq!(reflesh(i64::MAX, 0, 1), Err(RateError::ZeroRatesNoSupported));
    assert_eq!(reflesh(i64::MAX, 5, 0), Err(RateError::ZeroRatesNoSupported));
}

#[test]
fn reflesh_refuses_what_does_not_fit() {
    assert_eq!(reflesh(i64::MAX, 1, 1), Err(RateError::OutOfRange));
    assert_eq!(reflesh(10_000_000_000, 1, 1), Err(RateError::OutOfRange));
    assert_eq!(reflesh(10, 1, i64::MAX), Err(RateError::OutOfRange));
    assert_eq!(reflesh(1, 1, 9_223_372_036), Err(RateError::OutOfRange));
    assert!(reflesh(0, 1, 9_223_372_036).is_ok());
    assert!(reflesh(9_223_372_035, 1, 1).is_ok());
    assert_eq!(reflesh(9_223_372_036, 1, 1), Err(RateError::OutOfRange));
}

#[test]
fn reflesh_takes_negative_numbers_as_they_are() {
    let rates = reflesh(-3, 1, 1).unwrap();
    assert_eq!(rates.limit, -2);
    assert_eq!(rates.delay_variation_tolerance, Duration::nanoseconds(-2_000_000_000));
    let rates = reflesh(1, -1, 1).unwrap();
    assert_eq!(rates.emission_interval, Duration::nanoseconds(-1_000_000_000));
    assert_eq!(rates.delay_variation_tolerance, Duration::nanoseconds(-2_000_000_000));
}
