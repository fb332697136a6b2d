use wizardwars::timer::{Countdown, LifeTime, NANOS_PER_SECOND};

#[test]
fn countdown_starts_with_nothing_elapsed() {
    let countdown = Countdown::from_seconds(5);
    assert_eq!(countdown.duration(), 5 * NANOS_PER_SECOND);
    assert_eq!(countdown.elapsed(), 0);
    assert!(!countdown.finished());
    assert!(!countdown.just_finished());
}

#[test]
fn countdown_adds_up_ticks() {
    let mut countdown = Countdown::from_seconds(5);
    countdown.tick(2 * NANOS_PER_SECOND);
    assert_eq!(countdown.elapsed(), 2 * NANOS_PER_SECOND);
    assert!(!countdown.finished());
    assert!(!countdown.just_finished());

    countdown.tick(NANOS_PER_SECOND + 1);
    assert_eq!(countdown.elapsed(), 3 * NANOS_PER_SECOND + 1);
    assert!(!countdown.finished());
}

#[test]
fn countdown_finishes_at_its_duration() {
    let mut countdown = Countdown::from_seconds(5);
    countdown.tick(4 * NANOS_PER_SECOND);
    countdown.tick(NANOS_PER_SECOND);
    assert!(countdown.finished());
    assert!(countdown.just_finished());
    assert_eq!(countdown.elapsed(), 5 * NANOS_PER_SECOND);
}

#[test]
fn countdown_stops_at_its_duration() {
    let mut countdown = Countdown::from_seconds(1);
    countdown.tick(7 * NANOS_PER_SECOND);
    assert!(countdown.finished());
    assert!(countdown.just_finished());
    assert_eq!(countdown.elapsed(), NANOS_PER_SECOND);

    countdown.tick(NANOS_PER_SECOND);
    assert!(countdown.finished());
    assert!(!countdown.just_finished());
    assert_eq!(countdown.elapsed(), NANOS_PER_SECOND);
}

#[test]
fn countdown_of_no_time_finishes_with_the_first_tick() {
    let mut countdown = Countdown::from_seconds(0);
    assert!(!countdown.finished());
    countdown.tick(0);
    assert!(countdown.finished());
    assert!(countdown.just_finished());
}

#[test]
fn countdown_takes_the_longest_duration() {
    let mut countdown = Countdown::from_seconds(u32::MAX);
    assert_eq!(countdown.duration(), u32::MAX as u64 * NANOS_PER_SECOND);
    countdown.tick(u64::MAX);
    assert!(countdown.finished());
    assert_eq!(countdown.elapsed(), u32::MAX as u64 * NANOS_PER_SECOND);
}

#[test]
fn life_time_counts_seconds() {
    let mut life_time = LifeTime::from_seconds(5);
    life_time.timer.tick(5 * NANOS_PER_SECOND - 1);
    assert!(!life_time.timer.finished());
    life_time.timer.tick(1);
    assert!(life_time.timer.just_finished());
}
