use retry::strategies::jitter::{equal_jitter_from, full_jitter_from, EqualJitter, FullJitter, NoJitter};
use retry::strategies::stop::{StopAfterAttempts, StopAfterDelay, StopNever};
use retry::strategies::wait::{WaitExponential, WaitFixed};
use retry::{Duration, JitterStrategy, StopStrategy, StopStrategyExt, WaitStrategy, WaitStrategyExt};

#[test]
fn test_stop_or() {
    let s = StopAfterAttempts::from(3u16).or(StopAfterDelay::from(Duration::from_secs(5)));

    assert!(!s.should_stop(2, Duration::from_secs(1)));
    assert!(s.should_stop(4, Duration::from_secs(1)));
    assert!(s.should_stop(2, Duration::from_secs(10)));
    assert!(s.should_stop(4, Duration::from_secs(10)));
}

#[test]
fn test_wait_add() {
    let s = WaitExponential::new(Duration::from_secs(1), 2).add(WaitFixed::from_secs(1));

    assert_eq!(s.wait_duration(0), Duration::from_secs(2));
    assert_eq!(s.wait_duration(1), Duration::from_secs(3));
    assert_eq!(s.wait_duration(2), Duration::from_secs(5))
}

#[test]
fn test_stop_after_attempts() {
    let s = StopAfterAttempts::from(3u16);
    let elpased = Duration::from_secs(1);

    for attempt in 0..3 {
        assert!(!s.should_stop(attempt, elpased));
    }

    assert!(s.should_stop(3, elpased));
}

#[test]
fn test_stop_after_delay() {
    let s = StopAfterDelay::from(Duration::from_secs(5));

    assert!(!s.should_stop(1, Duration::from_millis(100)));
    assert!(!s.should_stop(1, Duration::from_millis(1000)));
    assert!(s.should_stop(1, Duration::from_millis(10000)));
}

#[test]
fn test_wait_fixed() {
    let s = WaitFixed::from_secs(1);

    for attempt in 0..3 {
        assert_eq!(s.wait_duration(attempt), Duration::from_secs(1));
    }
}

#[test]
fn test_wait_exponential() {
    let s = WaitExponential::new(Duration::from_secs(1), 2);

    assert_eq!(s.wait_duration(0), Duration::from_secs(1));
    assert_eq!(s.wait_duration(1), Duration::from_secs(2));
    assert_eq!(s.wait_duration(2), Duration::from_secs(4));
}

#[test]
fn stop_after_zero_attempts_stops_at_once() {
    let s = StopAfterAttempts::from(0u16);
    assert!(s.should_stop(0, Duration::from_secs(0)));
}

#[test]
fn stop_after_attempts_ignores_elapsed() {
    let s: StopAfterAttempts = 5;
    for attempt in 0..5 {
        assert!(!s.should_stop(attempt, Duration::from_secs(u64::MAX)));
    }
    assert!(s.should_stop(5, Duration::from_secs(0)));
    assert!(s.should_stop(usize::MAX, Duration::from_secs(0)));
}

#[test]
fn stop_after_delay_exact_limit_is_retried() {
    let s = StopAfterDelay::from_millis(250);
    assert!(!s.should_stop(0, Duration::from_millis(250)));
    assert!(s.should_stop(0, Duration::new(0, 250_000_001)));
}

#[test]
fn stop_never_never_stops() {
    let s = StopNever;
    assert!(!s.should_stop(usize::MAX, Duration::from_secs(u64::MAX)));
}

#[test]
fn stop_or_is_symmetric_and_fires_with_either_side() {
    let limits = [(0usize, 0u64), (1, 1), (3, 2), (7, 9)];
    for (attempt, secs) in limits {
        let elapsed = Duration::from_secs(secs);
        let ab = StopAfterAttempts::from(3u16).or(StopAfterDelay::from_secs(5));
        let ba = StopAfterDelay::from_secs(5).or(StopAfterAttempts::from(3u16));
        assert_eq!(ab.should_stop(attempt, elapsed), ba.should_stop(attempt, elapsed));
        if attempt >= 3 {
            assert!(StopAfterAttempts::from(3u16).or(StopNever).should_stop(attempt, elapsed));
        }
    }
}

#[test]
fn fixed_wait_is_constant_up_to_one_hundred() {
    let s = WaitFixed::from_millis(1500);
    for attempt in 0..=100 {
        assert_eq!(s.wait_duration(attempt), Duration::from_millis(1500));
    }
}

#[test]
fn exponential_doubles_then_saturates() {
    let s = WaitExponential::new(Duration::from_secs(1), 2);
    assert_eq!(s.wait_duration(3), Duration::from_secs(8));
    assert_eq!(s.wait_duration(10), Duration::from_secs(1024));
    let max = Duration::new(u64::MAX, 999_999_999);
    assert_eq!(s.wait_duration(200), max);
    assert_eq!(s.wait_duration(usize::MAX), max);
}

#[test]
fn exponential_with_other_multipliers() {
    let triple = WaitExponential::new(Duration::from_millis(10), 3);
    assert_eq!(triple.wait_duration(4), Duration::from_millis(810));
    let flat = WaitExponential::new(Duration::from_millis(10), 1);
    assert_eq!(flat.wait_duration(1_000_000), Duration::from_millis(10));
    let zero = WaitExponential::new(Duration::from_millis(10), 0);
    assert_eq!(zero.wait_duration(0), Duration::from_millis(10));
    assert_eq!(zero.wait_duration(1), Duration::from_millis(0));
}

#[test]
fn wait_add_saturates() {
    let max = Duration::new(u64::MAX, 999_999_999);
    let s = WaitFixed::from_secs(u64::MAX).add(WaitFixed::from_secs(1));
    assert_eq!(s.wait_duration(0), max);
}

#[test]
fn no_jitter_is_identity() {
    let d = Duration::new(3, 141_592_653);
    assert_eq!(NoJitter.apply(d), d);
}

#[test]
fn full_jitter_stays_below_the_wait() {
    let d = Duration::from_millis(20);
    for _ in 0..200 {
        let j = FullJitter.apply(d);
        assert!(j.as_nanos() < d.as_nanos());
        assert_eq!(j.as_nanos() % 1_000_000, 0);
    }
    let one = Duration::from_millis(1);
    assert_eq!(FullJitter.apply(one), Duration::from_millis(0));
}

#[test]
fn full_jitter_keeps_zero_and_sub_millisecond_waits() {
    assert_eq!(FullJitter.apply(Duration::from_secs(0)), Duration::from_secs(0));
    assert_eq!(FullJitter.apply(Duration::from_nanos(999_999)), Duration::from_nanos(999_999));
}

#[test]
fn equal_jitter_stays_in_upper_half() {
    let d = Duration::from_millis(21);
    for _ in 0..200 {
        let j = EqualJitter.apply(d);
        assert!(j.as_nanos() >= d.as_nanos() / 2);
        assert!(j.as_nanos() < d.as_nanos());
    }
    let short = Duration::from_nanos(1_500_000);
    assert_eq!(EqualJitter.apply(short), Duration::from_nanos(750_000));
    assert_eq!(EqualJitter.apply(Duration::from_secs(0)), Duration::from_secs(0));
}

#[test]
fn duration_conversions() {
    let d = Duration::new(2, 5_000_000);
    assert_eq!(d.as_millis(), 2005);
    assert_eq!(d.as_secs(), 2);
    assert_eq!(d.subsec_nanos(), 5_000_000);
    assert_eq!(d.as_nanos(), 2_005_000_000);
    assert!(!d.is_zero());
    assert!(Duration::from_millis(0).is_zero());
    assert_eq!(Duration::from_secs(1).saturating_add(Duration::from_millis(500)), Duration::from_millis(1500));
}

#[test]
fn full_jitter_returns_the_draw_in_milliseconds() {
    assert_eq!(full_jitter_from(Duration::from_millis(20), 7), Duration::from_millis(7));
    assert_eq!(full_jitter_from(Duration::from_millis(20), 0), Duration::from_millis(0));
    assert_eq!(full_jitter_from(Duration::from_millis(20), 19), Duration::from_millis(19));
    assert_eq!(full_jitter_from(Duration::from_nanos(500_000), 0), Duration::from_nanos(500_000));
}

#[test]
fn equal_jitter_adds_the_draw_to_half_the_wait() {
    assert_eq!(equal_jitter_from(Duration::from_millis(21), 3), Duration::from_nanos(13_500_000));
    assert_eq!(equal_jitter_from(Duration::from_millis(21), 0), Duration::from_nanos(10_500_000));
    assert_eq!(equal_jitter_from(Duration::from_millis(3), 0), Duration::from_nanos(1_500_000));
    assert_eq!(equal_jitter_from(Duration::from_nanos(1_500_000), 0), Duration::from_nanos(750_000));
    assert_eq!(equal_jitter_from(Duration::from_nanos(500_000), 0), Duration::from_nanos(500_000));
}
