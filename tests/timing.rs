use space_ranger::timer::{Stopwatch, Timer, TimerMode};

#[test]
fn once_timer_stops_at_its_duration() {
    let mut t = Timer::new(100, TimerMode::Once);
    t.tick(60);
    assert!(!t.finished());
    assert_eq!(t.elapsed(), 60);
    t.tick(60);
    assert!(t.finished());
    assert_eq!(t.elapsed(), 100);
    t.tick(500);
    assert!(t.finished());
    assert_eq!(t.elapsed(), 100);
}

#[test]
fn repeating_timer_wraps_around() {
    let mut t = Timer::new(100, TimerMode::Repeating);
    t.tick(250);
    assert!(t.finished());
    assert_eq!(t.elapsed(), 50);
    t.tick(20);
    assert!(!t.finished());
    assert_eq!(t.elapsed(), 70);
    t.tick(30);
    assert!(t.finished());
    assert_eq!(t.elapsed(), 0);
}

#[test]
fn zero_length_once_timer_finishes_on_first_tick() {
    let mut t = Timer::new(0, TimerMode::Once);
    assert!(!t.finished());
    t.tick(0);
    assert!(t.finished());
}

#[test]
fn stopwatch_counts_only_while_running() {
    let mut w = Stopwatch::new();
    w.tick(10);
    w.pause();
    w.tick(5);
    assert_eq!(w.elapsed(), 10);
    w.unpause();
    w.tick(7);
    assert_eq!(w.elapsed(), 17);
    w.reset();
    assert_eq!(w.elapsed(), 0);
    assert!(!w.paused);
}

#[test]
fn zero_length_repeating_timer_finishes_every_tick() {
    let mut t = Timer::new(0, TimerMode::Repeating);
    t.tick(0);
    assert!(t.finished());
    assert_eq!(t.elapsed(), 0);
    t.tick(35);
    assert!(t.finished());
    assert_eq!(t.elapsed(), 0);
}
