use rate_limiter::duration::Duration;
use rate_limiter::rate_limiter::to_second;
use rate_limiter::rate_limiter::RateError;
use rate_limiter::RateLimiter;
use rate_limiter::Store;

fn wait_millis(millis: u64) {
    let span = std::time::Duration::from_millis(millis);
    let start = std::time::Instant::now();
    while start.elapsed() < span {
        std::hint::spin_loop();
    }
}

#[test]
fn invalid_params() {
    let mut store = Store::new();
    let mut limiter = RateLimiter::new(&mut store);
    let rs = limiter.rate_limit("test".into(), 10, 1, 0, 1).unwrap_err();
    assert_eq!(rs, RateError::ZeroRatesNoSupported)
}

#[test]
fn rate_limit() {
    let mut store = Store::new();
    let mut limiter = RateLimiter::new(&mut store);
    let rs = limiter.rate_limit("test".into(), 10, 1, 1, 1).unwrap();
    assert_eq!(rs.allowed, true);
    let rs = limiter.rate_limit("test".into(), 10, 1, 1, 5).unwrap();
    assert_eq!(rs.allowed, true);
    let rs = limiter.rate_limit("test".into(), 10, 1, 1, 5).unwrap();
    assert_eq!(rs.allowed, true);
    let rs = limiter.rate_limit("test".into(), 10, 1, 1, 1).unwrap();
    assert_eq!(rs.allowed, false);
    assert_eq!(rs.remaining, 0);
    assert_eq!(rs.limit, 11);
    assert_eq!(to_second(rs.retry_after), 1);
    assert_eq!(to_second(rs.reset_after), 11);
    wait_millis(2000 + rs.retry_after.num_milliseconds() as u64 + 1);
    let rs = limiter.rate_limit("test".into(), 10, 1, 1, 3).unwrap();
    assert_eq!(rs.allowed, true);
    assert_eq!(rs.remaining, 0);
    assert_eq!(rs.limit, 11);
    assert_eq!(to_second(rs.retry_after), -1);
    assert_eq!(to_second(rs.reset_after), 11);
}

#[test]
fn to_second_work() {
    assert_eq!(to_second(Duration::milliseconds(1)), 1);
    assert_eq!(to_second(Duration::milliseconds(0)), 0);
    assert_eq!(to_second(Duration::milliseconds(999)), 1);
    assert_eq!(to_second(Duration::milliseconds(1001)), 2);
    assert_eq!(to_second(Duration::milliseconds(1999)), 2);
}

#[test]
fn first_event_by_the_clock() {
    let mut store = Store::new();
    let mut rate_limiter = RateLimiter::new(&mut store);
    let rs = rate_limiter.rate_limit("foo".to_string(), 10, 1, 1, 1).unwrap();
    assert_eq!(rs.allowed, true);
    assert_eq!(rs.remaining, 10);
    assert_eq!(rs.limit, 11);
    assert_eq!(to_second(rs.retry_after), -1);
    assert_eq!(to_second(rs.reset_after), 1);
}
