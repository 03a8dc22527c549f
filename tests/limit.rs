use tetris_core::limit::{DelayTrigger, RateLimiter, SingleFireTrigger};

// Times are in microseconds: 1_000_000 is one second.

#[test]
fn create_limiter() {
    RateLimiter::new(1_000_000, None);
    RateLimiter::new(1_000_000, Some(1_000_000));
}

#[test]
fn starts_ready() {
    let mut limit = RateLimiter::new(1_000_000, None);
    assert_eq!(limit.is_ready(), true);
    assert_eq!(limit.get_event(), Some(()));
}

#[test]
fn deny_two_attempts() {
    let mut limit = RateLimiter::new(1_000_000, None);
    assert_eq!(limit.is_ready(), true);
    assert_eq!(limit.get_event(), Some(()));
    assert_eq!(limit.is_ready(), false);
    assert_eq!(limit.get_event(), None);
}

#[test]
fn requset_works_after_wait() {
    let mut limit = RateLimiter::new(1_000_000, None);
    assert_eq!(limit.is_ready(), true);
    assert_eq!(limit.get_event(), Some(()));
    limit.elapsed(2_000_000);
    assert_eq!(limit.is_ready(), true);
    assert_eq!(limit.get_event(), Some(()));
}

#[test]
fn delay_vs_repeat() {
    let mut limit = RateLimiter::new(1_000_000, Some(2_000_000));
    assert_eq!(limit.is_ready(), true);
    assert_eq!(limit.get_event(), Some(()));
    assert_eq!(limit.is_ready(), false);
    assert_eq!(limit.get_event(), None);
    limit.elapsed(1_100_000);
    assert_eq!(limit.is_ready(), false);
    assert_eq!(limit.get_event(), None);
    limit.elapsed(1_100_000);
    assert_eq!(limit.is_ready(), true);
    assert_eq!(limit.get_event(), Some(()));
    limit.elapsed(1_100_000);
    assert_eq!(limit.is_ready(), true);
    assert_eq!(limit.get_event(), Some(()));
}

#[test]
fn ready_after_reset() {
    let mut limit = RateLimiter::new(1_000_000, Some(2_000_000));
    assert_eq!(limit.is_ready(), true);
    assert_eq!(limit.get_event(), Some(()));
    assert_eq!(limit.is_ready(), false);
    assert_eq!(limit.get_event(), None);
    limit.reset();
    assert_eq!(limit.is_ready(), true);
    assert_eq!(limit.get_event(), Some(()));
}

#[test]
fn limiter_ignores_time_while_off() {
    let mut limit = RateLimiter::new(1_000_000, None);
    limit.elapsed(5_000_000);
    assert_eq!(limit.time, 0);
    assert_eq!(limit.get_event(), Some(()));
    limit.elapsed(1_000_000);
    assert_eq!(limit.is_ready(), false);
    limit.elapsed(1);
    assert_eq!(limit.is_ready(), true);
}

#[test]
fn limiter_time_saturates() {
    let mut limit = RateLimiter::new(1, None);
    limit.get_event();
    limit.elapsed(u64::MAX);
    limit.elapsed(u64::MAX);
    assert_eq!(limit.time, u64::MAX);
    assert!(limit.is_ready());
}

#[test]
fn delay_trigger_fires_after_delay() {
    let mut t = DelayTrigger::new(500);
    assert!(!t.is_ready());
    t.elapsed(500);
    assert!(!t.get_event());
    t.elapsed(1);
    assert!(t.get_event());
    assert_eq!(t.time, 0);
    assert!(!t.is_ready());
}

#[test]
fn single_fire_trigger_scenario() {
    let mut t = SingleFireTrigger::new(500_000);
    assert!(!t.is_armed());
    assert!(!t.is_ready());
    t.elapsed(1_000_000);
    assert!(!t.is_ready());
    t.arm();
    assert!(t.is_armed());
    assert!(!t.is_ready());
    t.elapsed(400_000);
    assert!(!t.is_ready());
    assert!(!t.get_event());
    t.elapsed(200_000);
    assert!(t.is_ready());
    assert!(t.get_event());
    assert!(!t.get_event());
    t.elapsed(1_000_000);
    assert!(!t.get_event());
    t.arm();
    assert!(!t.get_event());
    t.reset();
    t.arm();
    t.elapsed(600_000);
    assert!(t.get_event());
}

#[test]
fn soft_reset_extends_only_before_ready() {
    let mut t = SingleFireTrigger::new(500_000);
    t.arm();
    t.elapsed(400_000);
    t.soft_reset();
    assert_eq!(t.timer.time, 0);
    t.elapsed(600_000);
    assert!(t.is_ready());
    t.soft_reset();
    assert!(t.is_ready());
    let mut off = SingleFireTrigger::new(500_000);
    off.elapsed(100);
    off.soft_reset();
    assert_eq!(off.timer.time, 100);
}

#[test]
fn rate_limiter_scenario() {
    let mut limit = RateLimiter::new(1_000_000, None);
    assert!(limit.is_ready());
    assert_eq!(limit.get_event(), Some(()));
    assert_eq!(limit.get_event(), None);
    limit.elapsed(2_000_000);
    assert_eq!(limit.get_event(), Some(()));
}
