use sandbox_api::token_bucket::TokenBucket;

const SEC: u64 = 1_000_000_000;

#[test]
fn test_token_bucket() {
    let mut bucket = TokenBucket::new(1, 1, 1);
    assert!(bucket.take());
    assert!(!bucket.take());
}

#[test]
fn test_token_bucket_fill_rate() {
    let start: u64 = 5 * SEC;
    let mut bucket = TokenBucket::new_at(1, 1, 1, start);
    assert!(bucket.take_at(start));
    assert!(bucket.take_at(start + SEC));
    assert!(!bucket.take_at(start + SEC));
}

#[test]
fn test_token_bucket_fill_rate_overflow() {
    let start: u64 = 5 * SEC;
    let mut bucket = TokenBucket::new_at(255, 255, 1, start);
    assert!(bucket.take_at(start + SEC));
    assert_eq!(bucket.available_tokens(), 254);
}

#[test]
fn test_token_bucket_overflow() {
    const PAST: u64 = 1_000_000_000;
    let mut bucket = TokenBucket::new(255, 255, 1);
    // Check that we can't overflow tokens_to_add
    bucket.set_last_update(bucket.last_update() - PAST * SEC);
    assert!(bucket.take());
}

#[test]
fn test_token_bucket_underflow() {
    const FUTURE: u64 = 1_000_000_000;
    let mut bucket = TokenBucket::new(255, 1, 1);
    // Check that we can't underflow tokens_to_add
    bucket.set_last_update(bucket.last_update() + FUTURE * SEC);
    assert!(bucket.take());
    assert_eq!(bucket.available_tokens(), 254);
}

#[test]
fn new_bucket_is_full() {
    let bucket = TokenBucket::new_at(7, 2, 3, 42);
    assert_eq!(bucket.capacity(), 7);
    assert_eq!(bucket.available_tokens(), 7);
    assert_eq!(bucket.fill_rate(), 2);
    assert_eq!(bucket.take_rate(), 3);
    assert_eq!(bucket.last_update(), 42);
}

#[test]
fn default_bucket_holds_one_token() {
    let mut bucket = TokenBucket::default();
    assert_eq!(bucket.capacity(), 1);
    assert_eq!(bucket.available_tokens(), 1);
    assert_eq!(bucket.fill_rate(), 1);
    assert_eq!(bucket.take_rate(), 1);
    assert!(bucket.take());
}

#[test]
fn one_token_bucket_refills_after_a_second() {
    let mut bucket = TokenBucket::new_at(1, 1, 1, 0);
    assert!(bucket.take_at(0));
    assert!(!bucket.take_at(0));
    assert!(!bucket.take_at(SEC - 1));
    assert!(bucket.take_at(SEC));
}

#[test]
fn denial_repeats_without_changing_state() {
    let mut bucket = TokenBucket::new_at(2, 1, 2, 10 * SEC);
    assert!(bucket.take_at(10 * SEC));
    for step in 0..5u64 {
        assert!(!bucket.take_at(10 * SEC + step * 1000));
        assert_eq!(bucket.available_tokens(), 0);
        assert_eq!(bucket.last_update(), 10 * SEC);
    }
}

#[test]
fn refill_adds_whole_seconds_times_fill_rate() {
    let mut bucket = TokenBucket::new_at(100, 3, 10, 0);
    for _ in 0..10 {
        assert!(bucket.take_at(0));
    }
    assert_eq!(bucket.available_tokens(), 0);
    // 4.5 seconds later: 4 whole seconds at 3 tokens each, then one take.
    assert!(bucket.take_at(4 * SEC + SEC / 2));
    assert_eq!(bucket.available_tokens(), 2);
    assert_eq!(bucket.last_update(), 4 * SEC + SEC / 2);
}

#[test]
fn refill_is_clamped_to_capacity() {
    let mut bucket = TokenBucket::new_at(5, 2, 1, 0);
    assert!(bucket.take_at(0));
    assert!(bucket.take_at(100 * SEC));
    assert_eq!(bucket.available_tokens(), 4);
}

#[test]
fn no_second_refill_within_one_second() {
    let mut bucket = TokenBucket::new_at(10, 1, 1, 0);
    for _ in 0..10 {
        assert!(bucket.take_at(0));
    }
    assert!(bucket.take_at(SEC + 1));
    assert_eq!(bucket.last_update(), SEC + 1);
    assert!(!bucket.take_at(2 * SEC));
    assert_eq!(bucket.last_update(), SEC + 1);
    assert!(bucket.take_at(2 * SEC + 1));
}

#[test]
fn fraction_of_a_second_is_not_lost() {
    let mut bucket = TokenBucket::new_at(3, 1, 1, 0);
    for _ in 0..3 {
        assert!(bucket.take_at(0));
    }
    assert!(!bucket.take_at(SEC / 2));
    assert_eq!(bucket.last_update(), 0);
    assert!(bucket.take_at(SEC));
}

#[test]
fn long_idle_period_clamps_to_capacity() {
    let mut bucket = TokenBucket::new_at(255, 255, 1, 0);
    assert!(bucket.take_at(0));
    assert!(bucket.take_at(u64::MAX));
    assert_eq!(bucket.available_tokens(), 254);
}

#[test]
fn clock_skew_refills_nothing() {
    let mut bucket = TokenBucket::new_at(2, 1, 1, u64::MAX);
    assert!(bucket.take_at(0));
    assert!(bucket.take_at(5 * SEC));
    assert!(!bucket.take_at(1000 * SEC));
    assert_eq!(bucket.last_update(), u64::MAX);
}

#[test]
fn zero_fill_rate_never_refills() {
    let mut bucket = TokenBucket::new_at(1, 0, 1, 0);
    assert!(bucket.take_at(0));
    assert!(!bucket.take_at(1_000 * SEC));
    assert_eq!(bucket.last_update(), 0);
}

#[test]
fn restore_clamps_to_capacity() {
    let bucket = TokenBucket::restore(5, 9, 11, 2, 1);
    assert_eq!(bucket.available_tokens(), 5);
    assert_eq!(bucket.last_update(), 11);
    let bucket = TokenBucket::restore(5, 3, 11, 2, 1);
    assert_eq!(bucket.available_tokens(), 3);
}
