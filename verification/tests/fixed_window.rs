use std::cell::Cell;
use std::rc::Rc;

use ratelimit::strategy::clock::Clock;
use ratelimit::strategy::fixed_window::FixedWindow;
use ratelimit::strategy::LimitStrategy;

/// A controllable clock: the test advances it by hand.
#[derive(Clone)]
struct TestClock {
    current_time: Rc<Cell<u64>>,
}

impl TestClock {
    fn new() -> Self {
        TestClock { current_time: Rc::new(Cell::new(100)) }
    }

    fn advance(&self, ticks: u64) {
        self.current_time.set(self.current_time.get() + ticks);
    }
}

impl Clock for TestClock {
    fn now(&self) -> u64 {
        self.current_time.get()
    }
}

#[test]
fn fixed_window_test_fixed_window() {
    let clock = TestClock::new();
    let fixed_window = FixedWindow::new(10, 3).with_clock(clock.clone());
    let mut state = fixed_window.initialize_state();

    // should let 3 through
    assert!(fixed_window.check_limit(&mut state).unwrap().is_allowed());
    assert!(fixed_window.check_limit(&mut state).unwrap().is_allowed());
    assert!(fixed_window.check_limit(&mut state).unwrap().is_allowed());

    // and then stop the next
    assert!(!fixed_window.check_limit(&mut state).unwrap().is_allowed());

    // advancing a full window should allow again
    clock.advance(10);

    // should let a further 3 through
    assert!(fixed_window.check_limit(&mut state).unwrap().is_allowed());
    assert!(fixed_window.check_limit(&mut state).unwrap().is_allowed());
    assert!(fixed_window.check_limit(&mut state).unwrap().is_allowed());

    // and then stop the next
    assert!(!fixed_window.check_limit(&mut state).unwrap().is_allowed());
}

#[test]
fn mod_test_fixed_window() {
    let clock = TestClock::new();
    let fixed_window = FixedWindow::new(10, 3).with_clock(clock.clone());
    let mut state = fixed_window.initialize_state();

    // should let 3 through
    assert!(fixed_window.check_limit(&mut state).unwrap().is_allowed());
    assert!(fixed_window.check_limit(&mut state).unwrap().is_allowed());
    assert!(fixed_window.check_limit(&mut state).unwrap().is_allowed());

    // and then stop the next
    assert!(!fixed_window.check_limit(&mut state).unwrap().is_allowed());

    // advancing a full window should allow again
    clock.advance(10);

    // should let a further 3 through
    assert!(fixed_window.check_limit(&mut state).unwrap().is_allowed());
    assert!(fixed_window.check_limit(&mut state).unwrap().is_allowed());
    assert!(fixed_window.check_limit(&mut state).unwrap().is_allowed());

    // and then stop the next
    assert!(!fixed_window.check_limit(&mut state).unwrap().is_allowed());
}

#[test]
fn limit_zero_denies_within_window_and_allows_on_rollover() {
    let clock = TestClock::new();
    let fixed_window = FixedWindow::new(10, 0).with_clock(clock.clone());
    let mut state = fixed_window.initialize_state();

    // a fresh state sits inside a just-started window, so with limit 0
    // every call in that window is denied
    assert!(!fixed_window.check_limit(&mut state).unwrap().is_allowed());
    assert!(!fixed_window.check_limit(&mut state).unwrap().is_allowed());

    // the request that observes the rollover is always admitted
    clock.advance(10);
    assert!(fixed_window.check_limit(&mut state).unwrap().is_allowed());

    // and the next one in the new window is denied again
    assert!(!fixed_window.check_limit(&mut state).unwrap().is_allowed());
}

#[test]
fn rollover_resets_counter_regardless_of_denial_streak() {
    let clock = TestClock::new();
    let fixed_window = FixedWindow::new(10, 2).with_clock(clock.clone());
    let mut state = fixed_window.initialize_state();

    assert!(fixed_window.check_limit(&mut state).unwrap().is_allowed());
    assert!(fixed_window.check_limit(&mut state).unwrap().is_allowed());
    for _ in 0..5 {
        assert!(!fixed_window.check_limit(&mut state).unwrap().is_allowed());
    }

    clock.advance(10);
    assert!(fixed_window.check_limit(&mut state).unwrap().is_allowed());
    assert!(fixed_window.check_limit(&mut state).unwrap().is_allowed());
    assert!(!fixed_window.check_limit(&mut state).unwrap().is_allowed());
}

#[test]
fn clock_moving_backward_forces_rollover() {
    let clock = TestClock::new();
    let fixed_window = FixedWindow::new(10, 1).with_clock(clock.clone());

    // state recorded at t = 100
    let mut state = fixed_window.initialize_state();
    assert!(fixed_window.check_limit(&mut state).unwrap().is_allowed());
    assert!(!fixed_window.check_limit(&mut state).unwrap().is_allowed());

    // the clock jumps backward: the next call rolls a new window over
    clock.current_time.set(50);
    assert!(fixed_window.check_limit(&mut state).unwrap().is_allowed());
    assert!(!fixed_window.check_limit(&mut state).unwrap().is_allowed());
}

#[test]
fn till_next_window_metadata_counts_down() {
    let clock = TestClock::new();
    let fixed_window = FixedWindow::new(10, 3).with_clock(clock.clone());
    let mut state = fixed_window.initialize_state();

    // first check at the window start: the full window remains
    let r1 = fixed_window.check_limit(&mut state).unwrap();
    assert_eq!(r1.metadata().unwrap().till_next_window, 10);

    clock.advance(3);
    let r2 = fixed_window.check_limit(&mut state).unwrap();
    assert_eq!(r2.metadata().unwrap().till_next_window, 7);

    clock.advance(6);
    let r3 = fixed_window.check_limit(&mut state).unwrap();
    assert_eq!(r3.metadata().unwrap().till_next_window, 1);

    // the denied call also carries metadata
    let r4 = fixed_window.check_limit(&mut state).unwrap();
    assert!(!r4.is_allowed());
    assert_eq!(r4.metadata().unwrap().till_next_window, 1);

    // past the window end the rollover starts a fresh full window
    clock.advance(1);
    let r5 = fixed_window.check_limit(&mut state).unwrap();
    assert!(r5.is_allowed());
    assert_eq!(r5.metadata().unwrap().till_next_window, 10);
}

#[test]
fn check_limit_at_matches_fixture_without_a_clock() {
    let fixed_window = FixedWindow::new(10, 3);
    let mut state = fixed_window.initialize_state_at(0);

    assert!(fixed_window.check_limit_at(0, &mut state).is_allowed());
    assert!(fixed_window.check_limit_at(0, &mut state).is_allowed());
    assert!(fixed_window.check_limit_at(0, &mut state).is_allowed());
    assert!(!fixed_window.check_limit_at(0, &mut state).is_allowed());

    assert!(fixed_window.check_limit_at(10, &mut state).is_allowed());
    assert!(fixed_window.check_limit_at(10, &mut state).is_allowed());
    assert!(fixed_window.check_limit_at(10, &mut state).is_allowed());
    assert!(!fixed_window.check_limit_at(10, &mut state).is_allowed());
}

#[test]
fn system_clock_strategy_allows_first_request() {
    let fixed_window = FixedWindow::new(60, 5);
    let mut state = fixed_window.initialize_state();
    assert!(fixed_window.check_limit(&mut state).unwrap().is_allowed());
}
