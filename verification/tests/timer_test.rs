use rusty_runner::timer::{GameTimer, TimerMode};

const MS: u64 = 1_000_000;

#[test]
fn once_timer_clamps_and_stays_finished() {
    let mut t = GameTimer::from_millis(1500, TimerMode::Once);
    assert_eq!(t.duration_nanos, 1500 * MS);
    t.tick(1000 * MS);
    assert_eq!(t.elapsed_nanos, 1000 * MS);
    assert!(!t.finished && !t.just_finished);
    t.tick(700 * MS);
    assert_eq!(t.elapsed_nanos, 1500 * MS);
    assert!(t.finished && t.just_finished);
    t.tick(700 * MS);
    assert_eq!(t.elapsed_nanos, 1500 * MS);
    assert!(t.finished && !t.just_finished);
    t.reset();
    assert_eq!(t.elapsed_nanos, 0);
    assert!(!t.finished);
}

#[test]
fn repeating_timer_keeps_the_remainder() {
    let mut t = GameTimer::from_millis(5000, TimerMode::Repeating);
    t.tick(4000 * MS);
    assert!(!t.just_finished);
    t.tick(2500 * MS);
    assert_eq!(t.elapsed_nanos, 1500 * MS);
    assert!(t.finished && t.just_finished);
    t.tick(11000 * MS);
    assert_eq!(t.elapsed_nanos, 2500 * MS);
    assert!(t.just_finished);
    t.tick(100 * MS);
    assert!(!t.finished && !t.just_finished);
}

#[test]
fn zero_length_timers_finish_at_once() {
    let mut t = GameTimer::from_millis(0, TimerMode::Repeating);
    t.tick(5);
    assert_eq!(t.elapsed_nanos, 0);
    assert!(t.just_finished);
    let mut t = GameTimer::from_millis(0, TimerMode::Once);
    t.tick(0);
    assert!(t.finished && t.just_finished);
}
