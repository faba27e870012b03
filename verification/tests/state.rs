use tokio_debouncer::{DebounceConfig, DebounceMode, DebouncerState, Readiness};

const SEC: u64 = 1_000_000_000;

fn leading(cooldown: u64) -> DebounceConfig {
    DebounceConfig { cooldown, mode: DebounceMode::Leading }
}

fn trailing(cooldown: u64) -> DebounceConfig {
    DebounceConfig { cooldown, mode: DebounceMode::Trailing }
}

#[test]
fn fresh_leading_state_has_not_run() {
    let state = DebouncerState::new(DebounceMode::Leading, 7);
    assert_eq!(state, DebouncerState { triggered: false, has_run: false, last_run: 7 });
}

#[test]
fn fresh_trailing_state_counts_as_run() {
    let state = DebouncerState::new(DebounceMode::Trailing, 7);
    assert_eq!(state, DebouncerState { triggered: false, has_run: true, last_run: 7 });
}

#[test]
fn mode_knows_whether_it_reschedules() {
    assert!(!DebounceMode::Leading.is_trailing());
    assert!(DebounceMode::Trailing.is_trailing());
}

#[test]
fn idle_state_is_never_ready() {
    let state = DebouncerState::new(DebounceMode::Leading, 0);
    assert_eq!(state.poll(&leading(0), 0), Readiness::Idle);
    assert_eq!(state.poll(&leading(10), u64::MAX), Readiness::Idle);
    let state = DebouncerState::new(DebounceMode::Trailing, 0);
    assert_eq!(state.poll(&trailing(0), u64::MAX), Readiness::Idle);
}

#[test]
fn first_trigger_asks_for_a_wake() {
    let mut state = DebouncerState::new(DebounceMode::Leading, 0);
    assert!(state.trigger(DebounceMode::Leading, 5));
    assert_eq!(state, DebouncerState { triggered: true, has_run: false, last_run: 0 });
}

#[test]
fn leading_trigger_keeps_last_run() {
    let mut state = DebouncerState { triggered: false, has_run: true, last_run: 40 };
    assert!(state.trigger(DebounceMode::Leading, 90));
    assert_eq!(state.last_run, 40);
}

#[test]
fn trailing_trigger_moves_last_run() {
    let mut state = DebouncerState { triggered: false, has_run: true, last_run: 40 };
    assert!(state.trigger(DebounceMode::Trailing, 90));
    assert_eq!(state, DebouncerState { triggered: true, has_run: true, last_run: 90 });
}

#[test]
fn repeated_trigger_does_not_wake_again() {
    let mut state = DebouncerState::new(DebounceMode::Trailing, 0);
    assert!(state.trigger(DebounceMode::Trailing, 1));
    assert!(!state.trigger(DebounceMode::Trailing, 2));
    assert!(!state.trigger(DebounceMode::Trailing, 3));
    assert_eq!(state, DebouncerState { triggered: true, has_run: true, last_run: 3 });
}

#[test]
fn leading_first_fire_ignores_cooldown() {
    let mut state = DebouncerState::new(DebounceMode::Leading, 100);
    state.trigger(DebounceMode::Leading, 100);
    assert_eq!(state.poll(&leading(10 * SEC), 100), Readiness::Ready);
    assert_eq!(state.poll(&leading(u64::MAX), 0), Readiness::Ready);
}

#[test]
fn leading_cools_down_after_a_cycle() {
    let config = leading(10 * SEC);
    let mut state = DebouncerState::new(DebounceMode::Leading, 0);
    state.trigger(DebounceMode::Leading, 0);
    assert!(state.finalize(false, 2 * SEC));
    state.trigger(DebounceMode::Leading, 3 * SEC);
    assert_eq!(state.poll(&config, 12 * SEC - 1), Readiness::Cooling { until: 12 * SEC });
    assert_eq!(state.poll(&config, 12 * SEC), Readiness::Ready);
    assert_eq!(state.poll(&config, 13 * SEC), Readiness::Ready);
}

#[test]
fn trailing_waits_for_a_full_cooldown() {
    let config = trailing(5 * SEC);
    let mut state = DebouncerState::new(DebounceMode::Trailing, 0);
    state.trigger(DebounceMode::Trailing, SEC);
    assert_eq!(state.poll(&config, SEC), Readiness::Cooling { until: 6 * SEC });
    assert_eq!(state.poll(&config, 6 * SEC - 1), Readiness::Cooling { until: 6 * SEC });
    assert_eq!(state.poll(&config, 6 * SEC), Readiness::Ready);
}

#[test]
fn trailing_second_trigger_extends_the_window() {
    let config = trailing(5 * SEC);
    let mut state = DebouncerState::new(DebounceMode::Trailing, 0);
    state.trigger(DebounceMode::Trailing, 0);
    state.trigger(DebounceMode::Trailing, 3 * SEC);
    assert_eq!(state.poll(&config, 5 * SEC), Readiness::Cooling { until: 8 * SEC });
    assert_eq!(state.poll(&config, 8 * SEC - 1), Readiness::Cooling { until: 8 * SEC });
    assert_eq!(state.poll(&config, 8 * SEC), Readiness::Ready);
}

#[test]
fn zero_cooldown_is_ready_at_once() {
    let mut state = DebouncerState::new(DebounceMode::Trailing, 9);
    state.trigger(DebounceMode::Trailing, 9);
    assert_eq!(state.poll(&trailing(0), 9), Readiness::Ready);
}

#[test]
fn clock_reading_before_last_run_is_not_ready() {
    let state = DebouncerState { triggered: true, has_run: true, last_run: 50 };
    assert_eq!(state.poll(&trailing(0), 49), Readiness::Cooling { until: 50 });
    assert_eq!(state.poll(&leading(0), 49), Readiness::Cooling { until: 50 });
}

#[test]
fn window_past_the_last_tick_is_held_there() {
    let state = DebouncerState { triggered: true, has_run: true, last_run: u64::MAX - 1 };
    assert_eq!(state.poll(&trailing(1), u64::MAX - 1), Readiness::Cooling { until: u64::MAX });
    assert_eq!(state.poll(&trailing(1), u64::MAX), Readiness::Ready);
    assert_eq!(state.poll(&trailing(2), u64::MAX), Readiness::Cooling { until: u64::MAX });
    assert_eq!(state.poll(&leading(u64::MAX), u64::MAX), Readiness::Cooling { until: u64::MAX });
}

#[test]
fn burst_gives_one_cycle() {
    let config = trailing(5 * SEC);
    let mut state = DebouncerState::new(DebounceMode::Trailing, 0);
    let mut wakes = 0;
    for at in [0, 1, 2, 3] {
        if state.trigger(DebounceMode::Trailing, at * SEC) {
            wakes += 1;
        }
    }
    assert_eq!(wakes, 1);
    let mut single = DebouncerState::new(DebounceMode::Trailing, 0);
    single.trigger(DebounceMode::Trailing, 3 * SEC);
    assert_eq!(state, single);
    assert_eq!(state.poll(&config, 8 * SEC), Readiness::Ready);
    assert!(state.finalize(false, 8 * SEC));
    assert_eq!(state.poll(&config, 8 * SEC), Readiness::Idle);
    assert_eq!(state.poll(&config, 100 * SEC), Readiness::Idle);
    let settled = state;
    assert!(!state.finalize(false, 9 * SEC));
    assert!(!state.finalize(true, 9 * SEC));
    assert_eq!(state, settled);
}

#[test]
fn acknowledged_cycle_clears_the_flag() {
    let mut state = DebouncerState { triggered: true, has_run: false, last_run: 3 };
    assert!(state.finalize(false, 20));
    assert_eq!(state, DebouncerState { triggered: false, has_run: true, last_run: 20 });
    assert_eq!(state.poll(&leading(0), 1_000), Readiness::Idle);
    assert!(state.trigger(DebounceMode::Leading, 30));
    assert!(state.triggered);
}

#[test]
fn abandoned_cycle_rearms_from_now() {
    let mut state = DebouncerState { triggered: true, has_run: false, last_run: 3 };
    assert!(state.finalize(true, 20));
    assert_eq!(state, DebouncerState { triggered: true, has_run: true, last_run: 20 });
    assert_eq!(state.poll(&leading(10), 29), Readiness::Cooling { until: 30 });
    assert_eq!(state.poll(&leading(10), 30), Readiness::Ready);
    assert_eq!(state.poll(&trailing(10), 29), Readiness::Cooling { until: 30 });
    assert_eq!(state.poll(&trailing(10), 30), Readiness::Ready);
}

#[test]
fn finalize_with_nothing_pending_changes_nothing() {
    let mut state = DebouncerState::new(DebounceMode::Leading, 11);
    assert!(!state.finalize(false, 99));
    assert!(!state.finalize(true, 99));
    assert_eq!(state, DebouncerState { triggered: false, has_run: false, last_run: 11 });
}

#[test]
fn poll_leaves_the_state_alone() {
    let mut state = DebouncerState::new(DebounceMode::Trailing, 0);
    state.trigger(DebounceMode::Trailing, 4);
    let before = state;
    state.poll(&trailing(5), 4);
    state.poll(&trailing(5), 9);
    assert_eq!(state, before);
}

#[test]
fn trailing_timeout_at_four_seconds_then_ready_at_five() {
    let config = trailing(5 * SEC);
    let mut state = DebouncerState::new(DebounceMode::Trailing, 0);
    state.trigger(DebounceMode::Trailing, 0);
    assert_eq!(state.poll(&config, 0), Readiness::Cooling { until: 5 * SEC });
    assert_eq!(state.poll(&config, 4 * SEC), Readiness::Cooling { until: 5 * SEC });
    assert_eq!(state.poll(&config, 5 * SEC), Readiness::Ready);
}

#[test]
fn leading_timeout_at_nine_seconds_then_ready_at_ten() {
    let config = leading(10 * SEC);
    let mut state = DebouncerState::new(DebounceMode::Leading, 0);
    state.trigger(DebounceMode::Leading, 0);
    assert_eq!(state.poll(&config, 0), Readiness::Ready);
    assert!(state.finalize(false, 0));
    assert!(state.has_run);
    state.trigger(DebounceMode::Leading, 0);
    assert_eq!(state.poll(&config, 0), Readiness::Cooling { until: 10 * SEC });
    assert_eq!(state.poll(&config, 9 * SEC), Readiness::Cooling { until: 10 * SEC });
    assert_eq!(state.poll(&config, 10 * SEC), Readiness::Ready);
}
