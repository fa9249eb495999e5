use tower_sim::fixed::DUR_MAX;
use tower_sim::timer::{ConfigError, Timer, TimerMode};

#[test]
fn timer_fires_once_when_splits_cross_boundary() {
    // Deltas 300 + 300 + 500 = 1100 = 1 * 1000 + 100: one fire, phase 100.
    let mut t = Timer::new(1000, TimerMode::Repeating).unwrap();
    t.tick(300);
    assert!(!t.just_finished());
    t.tick(300);
    assert!(!t.just_finished());
    t.tick(500);
    assert!(t.just_finished());
    assert_eq!(t.elapsed, 100);
}

#[test]
fn timer_wrap_preserves_overshoot() {
    let mut t = Timer::new(1000, TimerMode::Repeating).unwrap();
    t.tick(1300);
    assert!(t.just_finished());
    assert_eq!(t.elapsed, 300);
}

#[test]
fn timer_no_catch_up_burst() {
    // A single delta covering two and a half periods fires once, and the
    // accumulator wraps modulo the duration.
    let mut t = Timer::new(1000, TimerMode::Repeating).unwrap();
    t.tick(2500);
    assert!(t.just_finished());
    assert_eq!(t.elapsed, 500);
    t.tick(100);
    assert!(!t.just_finished());
    assert_eq!(t.elapsed, 600);
}

#[test]
fn timer_once_clamps_and_fires_once() {
    let mut t = Timer::new(1000, TimerMode::Once).unwrap();
    t.tick(600);
    assert!(!t.just_finished());
    t.tick(600);
    assert!(t.just_finished());
    assert_eq!(t.elapsed, 1000);
    t.tick(600);
    assert!(!t.just_finished());
    assert_eq!(t.elapsed, 1000);
}

#[test]
fn timer_zero_duration_rejected() {
    assert_eq!(
        Timer::new(0, TimerMode::Repeating),
        Err(ConfigError::NonPositiveDuration)
    );
}

#[test]
fn timer_duration_too_large_rejected() {
    assert_eq!(
        Timer::new(DUR_MAX + 1, TimerMode::Once),
        Err(ConfigError::DurationTooLarge)
    );
}
