use fighter_arena::timer::{RefreshTimer, REFRESH_INTERVAL_MS, TICK_STEP_MS};

#[test]
fn timer_fires_after_fifty_steps_and_not_before() {
    let mut timer = RefreshTimer::new(REFRESH_INTERVAL_MS);
    assert_eq!(REFRESH_INTERVAL_MS, 500);
    assert_eq!(TICK_STEP_MS, 10);
    let mut fired = 0;
    for step in 1..=50 {
        timer.tick(TICK_STEP_MS);
        if timer.finished() {
            fired += 1;
            assert_eq!(step, 50);
        }
    }
    assert_eq!(fired, 1);
    assert!(timer.finished());
}

#[test]
fn timer_stops_at_its_threshold() {
    let mut timer = RefreshTimer::new(500);
    timer.tick(480);
    assert_eq!(timer.elapsed(), 480);
    assert!(!timer.finished());
    timer.tick(30);
    assert_eq!(timer.elapsed(), 500);
    assert!(timer.finished());
    timer.tick(u64::MAX);
    assert_eq!(timer.elapsed(), 500);
}

#[test]
fn reset_starts_a_new_interval() {
    let mut timer = RefreshTimer::new(500);
    timer.tick(500);
    assert!(timer.finished());
    timer.reset();
    assert_eq!(timer.elapsed(), 0);
    assert_eq!(timer.threshold(), 500);
    assert!(!timer.finished());
}

#[test]
fn zero_threshold_is_always_finished() {
    let mut timer = RefreshTimer::new(0);
    assert!(timer.finished());
    timer.tick(10);
    assert_eq!(timer.elapsed(), 0);
    assert!(timer.finished());
}
