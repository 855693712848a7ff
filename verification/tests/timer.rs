use platformer::timer::{expire, handle_busy, handle_landing, COYOTE_NANOS, LANDING_NANOS};
use platformer::{Busy, Countdown, Coyote, Landing};

#[test]
fn a_countdown_stops_at_its_duration() {
    let mut timer = Countdown::new(100);
    assert_eq!(timer.remaining(), 100);
    timer.tick(40);
    assert_eq!(timer.elapsed, 40);
    assert!(!timer.finished());
    assert_eq!(timer.remaining(), 60);
    timer.tick(60);
    assert!(timer.finished());
    assert!(timer.just_finished());
    assert_eq!(timer.elapsed, 100);
    timer.tick(1_000);
    assert!(timer.finished());
    assert!(!timer.just_finished());
    assert_eq!(timer.elapsed, 100);
    assert_eq!(timer.remaining(), 0);
    timer.reset();
    assert_eq!(timer, Countdown::new(100));
}

#[test]
fn a_countdown_takes_the_longest_tick() {
    let mut timer = Countdown::new(u64::MAX);
    timer.tick(u64::MAX - 1);
    assert!(!timer.finished());
    timer.tick(u64::MAX);
    assert!(timer.finished());
    assert_eq!(timer.elapsed, u64::MAX);
}

#[test]
fn a_countdown_of_no_length_finishes_on_its_first_tick() {
    let mut timer = Countdown::new(0);
    assert!(!timer.finished());
    timer.tick(0);
    assert!(timer.finished());
}

#[test]
fn markers_have_their_durations() {
    assert_eq!(Landing::new().0.duration, 150_000_000);
    assert_eq!(LANDING_NANOS, 150_000_000);
    assert_eq!(Coyote::new().0.duration, 200_000_000);
    assert_eq!(COYOTE_NANOS, 200_000_000);
    let mut busy = Busy::new(5);
    busy.tick(4);
    assert!(!busy.finished());
    busy.tick(1);
    assert!(busy.finished());
    let mut landing = Landing::new();
    landing.tick(LANDING_NANOS - 1);
    assert!(!landing.finished());
    let mut coyote = Coyote::new();
    coyote.tick(COYOTE_NANOS);
    assert!(coyote.finished());
}

#[test]
fn markers_remove_themselves() {
    let mut busy = Some(Busy::new(10));
    handle_busy(&mut busy, 9);
    assert_eq!(busy.map(|b| b.0.elapsed), Some(9));
    handle_busy(&mut busy, 1);
    assert_eq!(busy, None);
    handle_busy(&mut busy, 1);
    assert_eq!(busy, None);
    let mut landing = Some(Landing::new());
    handle_landing(&mut landing, 149_999_999);
    assert!(landing.is_some());
    handle_landing(&mut landing, 1);
    assert_eq!(landing, None);
    assert_eq!(expire(None, 5), None);
    assert_eq!(expire(Some(Countdown::new(3)), 3), None);
}
