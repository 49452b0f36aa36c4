use follower_fetch::throttler::Throttler;
use follower_fetch::throttler::DEFAULT_CAPACITY;
use follower_fetch::throttler::DEFAULT_QUANTUM;
use follower_fetch::throttler::DEFAULT_REFILL_INTERVAL_TICKS;

#[test]
fn full_bucket_grants_at_most_capacity_within_one_window() {
    let mut t = Throttler::new(10, 1, 60, 0);
    let mut granted: u64 = 0;
    let mut now: u64 = 0;
    // 15 attempts, all inside the window [0, 60)
    while now < 15 {
        if t.try_acquire(now * 4) {
            granted += 1;
        }
        now += 1;
    }
    assert_eq!(granted, 10);
    assert_eq!(t.available, 0);
    assert_eq!(t.last_refill, 0);
}

#[test]
fn fast_path_grants_immediately_when_tokens_remain() {
    let mut t = Throttler::new(3, 1, 60, 100);
    assert!(t.try_acquire(100));
    assert!(t.try_acquire(100));
    assert!(t.try_acquire(100));
    assert!(!t.try_acquire(100));
}

#[test]
fn one_interval_refills_one_quantum() {
    let mut t = Throttler::new(10, 1, 60, 0);
    let mut i: u64 = 0;
    while i < 10 {
        assert!(t.try_acquire(i));
        i += 1;
    }
    assert!(!t.try_acquire(59));
    // one whole interval elapsed: exactly one token back
    assert!(t.try_acquire(60));
    assert!(!t.try_acquire(61));
    assert_eq!(t.last_refill, 60);
}

#[test]
fn idle_period_replenishes_up_to_capacity() {
    let mut t = Throttler::new(4, 1, 10, 0);
    let mut i: u64 = 0;
    while i < 4 {
        assert!(t.try_acquire(0));
        i += 1;
    }
    assert_eq!(t.available, 0);
    // four whole intervals idle: back to capacity, and capped there
    t.refill(1000);
    assert_eq!(t.available, 4);
    assert_eq!(t.capacity, 4);
}

#[test]
fn refill_is_capped_and_keeps_the_fraction_of_an_interval() {
    let mut t = Throttler::new(3, 2, 10, 0);
    assert!(t.try_acquire(0));
    assert!(t.try_acquire(0));
    assert!(t.try_acquire(0));
    // 25 ticks: two whole intervals worth 4 tokens, capped at 3;
    // the 5 leftover ticks stay accounted to the running interval
    t.refill(25);
    assert_eq!(t.available, 3);
    assert_eq!(t.last_refill, 20);
}

#[test]
fn ticks_until_ready_is_zero_with_tokens_and_the_interval_remainder_without() {
    let mut t = Throttler::new(2, 1, 60, 0);
    assert_eq!(t.ticks_until_ready(30), 0);
    assert!(t.try_acquire(30));
    assert!(t.try_acquire(30));
    assert_eq!(t.ticks_until_ready(45), 15);
    assert_eq!(t.ticks_until_ready(60), 0);
    // waiting out the announced ticks is enough: the next attempt is granted
    assert!(!t.try_acquire(45));
    assert!(t.try_acquire(45 + 15));
}

#[test]
fn default_limits_model_the_published_quota() {
    let mut t = Throttler::new(
        DEFAULT_CAPACITY,
        DEFAULT_QUANTUM,
        DEFAULT_REFILL_INTERVAL_TICKS,
        0,
    );
    assert_eq!(t.capacity, 10);
    assert_eq!(t.quantum, 1);
    assert_eq!(t.refill_interval, 60000);
    let mut granted: u64 = 0;
    let mut i: u64 = 0;
    while i < 12 {
        if t.try_acquire(i * 1000) {
            granted += 1;
        }
        i += 1;
    }
    assert_eq!(granted, 10);
}
