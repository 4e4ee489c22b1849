use lab_world::timer::Timer;

#[test]
fn new_timer_has_counted_nothing() {
    assert_eq!(Timer::new(1500), Timer { elapsed: 0, duration: 1500, finished: false });
}

#[test]
fn timer_finishes_when_the_interval_has_passed() {
    let mut timer = Timer::new(1500);
    timer.tick(700);
    assert_eq!(timer, Timer { elapsed: 700, duration: 1500, finished: false });
    timer.tick(799);
    assert_eq!(timer, Timer { elapsed: 1499, duration: 1500, finished: false });
    timer.tick(1);
    assert_eq!(timer, Timer { elapsed: 1500, duration: 1500, finished: true });
}

#[test]
fn finished_timer_counts_no_further() {
    let mut timer = Timer::new(10);
    timer.tick(25);
    assert_eq!(timer, Timer { elapsed: 10, duration: 10, finished: true });
    timer.tick(u32::MAX);
    assert_eq!(timer, Timer { elapsed: 10, duration: 10, finished: true });
}

#[test]
fn timer_does_not_overflow() {
    let mut timer = Timer::new(u32::MAX);
    timer.tick(u32::MAX - 1);
    assert!(!timer.finished);
    timer.tick(u32::MAX);
    assert_eq!(timer, Timer { elapsed: u32::MAX, duration: u32::MAX, finished: true });
}

#[test]
fn timer_without_interval_finishes_at_once() {
    let mut timer = Timer::new(0);
    assert!(!timer.finished);
    timer.tick(0);
    assert!(timer.finished);
}

#[test]
fn reset_starts_anew() {
    let mut timer = Timer::new(10);
    timer.tick(10);
    timer.reset();
    assert_eq!(timer, Timer::new(10));
    timer.tick(9);
    assert!(!timer.finished);
}
