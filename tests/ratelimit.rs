use sandbox_api::error::Error;
use sandbox_api::ratelimit::{client_key_or_default, RateLimiter, DEFAULT_CLIENT_KEY};

const SEC: u64 = 1_000_000_000;

#[test]
fn first_request_creates_a_full_bucket() {
    let limiter = RateLimiter::new(3, 1, 1);
    assert_eq!(limiter.tracked_clients(), 0);
    assert!(limiter.allow_at(1, 0));
    assert_eq!(limiter.tracked_clients(), 1);
    assert!(limiter.allow_at(1, 0));
    assert!(limiter.allow_at(1, 0));
    assert!(!limiter.allow_at(1, 0));
    assert!(limiter.allow_at(1, SEC));
}

#[test]
fn clients_have_separate_buckets() {
    let limiter = RateLimiter::new(1, 1, 1);
    assert!(limiter.allow_at(10, 0));
    assert!(!limiter.allow_at(10, 0));
    assert!(limiter.allow_at(11, 0));
    assert_eq!(limiter.tracked_clients(), 2);
}

#[test]
fn two_first_requests_consume_one_token_each() {
    let limiter = RateLimiter::new(2, 0, 1);
    assert!(limiter.allow_at(5, 0));
    assert!(limiter.allow_at(5, 0));
    assert_eq!(limiter.tracked_clients(), 1);
    assert!(!limiter.allow_at(5, 0));
}

#[test]
fn exhausted_bucket_gives_too_many_requests() {
    let limiter = RateLimiter::new(1, 1, 1);
    assert!(limiter.limit_at(3, 0).is_ok());
    let err = limiter.limit_at(3, 0).unwrap_err();
    assert!(matches!(err, Error::TooManyRequests));
    assert_eq!(err.status_code(), 429);
}

#[test]
fn limiter_on_the_clock() {
    let limiter = RateLimiter::new(1, 1, 1);
    assert!(limiter.allow(9));
    assert!(limiter.limit(9).is_err());
}

#[test]
fn missing_address_uses_loopback() {
    assert_eq!(client_key_or_default(None), DEFAULT_CLIENT_KEY);
    // ::ffff:127.0.0.1
    assert_eq!(DEFAULT_CLIENT_KEY, (0xffffu128 << 32) | (127u128 << 24) | 1);
    assert_eq!(client_key_or_default(Some(5)), 5);
}
