use visualizer::resources::GameTimer;

const SECOND: u64 = 1_000_000_000;

fn admitted(timer: &mut GameTimer, deltas: &[u64]) -> u64 {
    let mut count = 0;
    for delta in deltas {
        if timer.tick(*delta) {
            count += 1;
        }
    }
    count
}

#[test]
fn twelve_short_frames_admit_one_step() {
    let mut timer = GameTimer::new(SECOND);
    let frames = vec![SECOND / 10; 12];
    assert_eq!(admitted(&mut timer, &frames), 1);
    assert_eq!(timer.accumulated(), 2 * (SECOND / 10));
}

#[test]
fn new_timer_runs_and_holds_nothing() {
    let timer = GameTimer::new(2 * SECOND);
    assert_eq!(timer.interval(), 2 * SECOND);
    assert_eq!(timer.accumulated(), 0);
    assert!(!timer.paused());
}

#[test]
fn step_is_admitted_when_the_interval_is_reached_exactly() {
    let mut timer = GameTimer::new(SECOND);
    assert!(!timer.tick(SECOND - 1));
    assert!(timer.tick(1));
    assert_eq!(timer.accumulated(), 0);
}

#[test]
fn remainder_is_carried_over_not_dropped() {
    let mut timer = GameTimer::new(SECOND);
    assert!(timer.tick(SECOND + SECOND / 2));
    assert_eq!(timer.accumulated(), SECOND / 2);
    assert!(timer.tick(SECOND / 2));
    assert_eq!(timer.accumulated(), 0);
}

#[test]
fn paused_timer_ignores_ticks() {
    let mut timer = GameTimer::new(SECOND);
    assert!(!timer.tick(SECOND / 2));
    timer.pause();
    assert!(timer.paused());
    assert!(!timer.tick(10 * SECOND));
    assert_eq!(timer.accumulated(), SECOND / 2);
    assert_eq!(timer.interval(), SECOND);
}

#[test]
fn unpausing_keeps_what_was_gathered() {
    let mut timer = GameTimer::new(SECOND);
    assert!(!timer.tick(SECOND / 4));
    timer.pause();
    timer.unpause();
    assert!(!timer.paused());
    assert_eq!(timer.accumulated(), SECOND / 4);
    assert!(timer.tick(3 * (SECOND / 4)));
}

#[test]
fn one_long_frame_admits_one_step_at_a_time() {
    let mut timer = GameTimer::new(SECOND);
    assert!(timer.tick(2 * SECOND + SECOND / 2));
    assert_eq!(timer.accumulated(), SECOND + SECOND / 2);
    assert!(timer.tick(0));
    assert_eq!(timer.accumulated(), SECOND / 2);
    assert!(!timer.tick(0));
    assert_eq!(timer.accumulated(), SECOND / 2);
}

#[test]
fn admissions_are_the_whole_intervals_in_the_time_given() {
    let mut timer = GameTimer::new(3);
    let frames = [1, 2, 3, 1, 1, 1, 2];
    let total: u64 = frames.iter().sum();
    assert_eq!(admitted(&mut timer, &frames), total / 3);
    assert_eq!(timer.accumulated(), total % 3);
}

#[test]
fn time_is_conserved_over_a_run_of_frames() {
    let mut timer = GameTimer::new(7);
    let frames = [20, 0, 0, 3, 9, 1];
    let total: u64 = frames.iter().sum();
    let count = admitted(&mut timer, &frames);
    assert_eq!(count, 4);
    assert_eq!(count * 7 + timer.accumulated(), total);
}

#[test]
fn zero_interval_admits_every_frame() {
    let mut timer = GameTimer::new(0);
    assert!(timer.tick(0));
    assert!(timer.tick(5));
    assert_eq!(timer.accumulated(), 5);
}

#[test]
fn remainder_too_large_to_count_is_held_at_the_largest_value() {
    let mut timer = GameTimer::new(1);
    assert!(timer.tick(u64::MAX));
    assert_eq!(timer.accumulated(), u64::MAX - 1);
    assert!(timer.tick(u64::MAX));
    assert_eq!(timer.accumulated(), u64::MAX);
}
