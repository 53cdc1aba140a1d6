use gazelle_api::RateLimiter;
use std::time::{SystemTime, UNIX_EPOCH};

const LIMIT_COUNT: usize = 5;
const LIMIT_DURATION: u64 = 10_000;
const LIMIT_DURATION_SHORT: u64 = 250;

fn now_millis() -> u64 {
    SystemTime::now()
        .duration_since(UNIX_EPOCH)
        .expect("system clock should be past the epoch")
        .as_millis() as u64
}

fn approximately_equals(d1: u64, d2: u64, tolerance: u64) -> bool {
    if d1 > d2 {
        d1 - d2 <= tolerance
    } else {
        d2 - d1 <= tolerance
    }
}

fn print_duration(name: &str, duration: Option<u64>) {
    if let Some(duration) = duration {
        println!("{name} duration: {:.3} seconds", duration as f64 / 1000.0);
    } else {
        println!("{name} duration: None");
    }
}

#[test]
fn test_get_wait_duration_empty() {
    // Arrange
    let mut limiter = RateLimiter::new(LIMIT_COUNT, LIMIT_DURATION);

    // Act
    let wait = limiter.get_wait_duration(now_millis());
    print_duration("Wait", wait);

    // Assert
    assert!(wait.is_none());
}

#[test]
fn test_get_wait_duration_available() {
    // Arrange
    let mut limiter = RateLimiter::new(LIMIT_COUNT, LIMIT_DURATION);
    let now = now_millis();
    for _ in 0..(LIMIT_COUNT - 1) {
        limiter.requests.push_back(now);
    }

    // Act
    let wait = limiter.get_wait_duration(now_millis());
    print_duration("Wait", wait);

    // Assert
    assert!(wait.is_none());
}

#[test]
fn test_get_wait_duration_full() {
    // Arrange
    let mut limiter = RateLimiter::new(LIMIT_COUNT, LIMIT_DURATION);
    let now = now_millis();
    for _ in 0..LIMIT_COUNT {
        limiter.requests.push_back(now);
    }

    // Act
    let wait = limiter.get_wait_duration(now_millis());
    print_duration("Wait", wait);

    // Assert
    assert!(wait.is_some());
    assert!(approximately_equals(wait.unwrap(), LIMIT_DURATION, 100));
}

#[test]
fn test_record_after_wait_replaces_oldest() {
    // Arrange
    let mut limiter = RateLimiter::new(LIMIT_COUNT, LIMIT_DURATION_SHORT);
    let now: u64 = 1_000_000;
    for _ in 0..LIMIT_COUNT {
        limiter.requests.push_back(now);
    }

    // Act: the call must wait the whole short window, then takes the slot
    // of the evicted oldest timestamp.
    let wait = limiter.get_wait_duration(now);
    assert_eq!(wait, Some(LIMIT_DURATION_SHORT));
    let admitted_at = now + wait.unwrap();
    limiter.record(true, admitted_at);

    // Assert
    assert_eq!(limiter.requests.len(), LIMIT_COUNT);
    assert_eq!(*limiter.requests.back().unwrap(), admitted_at);
}

#[test]
fn burst_first_calls_wait_zero() {
    // The first `capacity` calls of a burst are admitted with no wait.
    let mut limiter = RateLimiter::new(LIMIT_COUNT, LIMIT_DURATION);
    let t: u64 = 2_000_000;
    for _ in 0..LIMIT_COUNT {
        let wait = limiter.get_wait_duration(t);
        assert!(wait.is_none());
        limiter.record(false, t);
    }
    assert_eq!(limiter.requests.len(), LIMIT_COUNT);
}

#[test]
fn burst_capacity_plus_one_waits_full_window() {
    // The (capacity + 1)-th call of an immediate burst waits the window.
    let mut limiter = RateLimiter::new(LIMIT_COUNT, LIMIT_DURATION);
    let t: u64 = 2_000_000;
    for _ in 0..LIMIT_COUNT {
        assert!(limiter.get_wait_duration(t).is_none());
        limiter.record(false, t);
    }
    let wait = limiter.get_wait_duration(t);
    assert_eq!(wait, Some(LIMIT_DURATION));
}

#[test]
fn stale_timestamps_are_evicted() {
    // A limiter fed `capacity` stale timestamps reports zero wait and its
    // sequence is emptied by the check.
    let mut limiter = RateLimiter::new(LIMIT_COUNT, LIMIT_DURATION);
    let t: u64 = 100_000;
    for _ in 0..LIMIT_COUNT {
        limiter.requests.push_back(t);
    }
    let wait = limiter.get_wait_duration(t + LIMIT_DURATION + 1);
    assert!(wait.is_none());
    assert_eq!(limiter.requests.len(), 0);
}

#[test]
fn six_calls_back_to_back_take_at_least_the_window() {
    // capacity 5, window 10 s: six back-to-back calls; the sixth call's
    // admission comes no earlier than the window, give or take 100 ms.
    let capacity: usize = 5;
    let window: u64 = 10_000;
    let mut limiter = RateLimiter::new(capacity, window);
    let start: u64 = 5_000_000;
    let mut clock = start;
    for _ in 0..6 {
        match limiter.get_wait_duration(clock) {
            Some(wait) => {
                clock += wait;
                limiter.record(true, clock);
            }
            None => limiter.record(false, clock),
        }
    }
    let elapsed = clock - start;
    assert!(elapsed >= window - 100);
}
