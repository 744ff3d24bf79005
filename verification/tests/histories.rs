//! Sequences of operations, taken in the order in which a lock would let
//! them through, with every notification collected as an observer sees it.

use countdown::counter::{CounterState, Notification, TickOutcome};

/// Delivers what `ready` hands back.
fn ready(state: &mut CounterState, count: u16, sink: &mut Vec<Option<u16>>) {
    if let Some(Notification { value }) = state.ready(count) {
        sink.push(value);
    }
}

/// Takes one turn of a ticker; `false` when the ticker leaves.
fn turn(state: &mut CounterState, sink: &mut Vec<Option<u16>>) -> bool {
    match state.tick() {
        TickOutcome::Continue(Notification { value }) => {
            sink.push(value);
            true
        }
        TickOutcome::Terminate => false,
    }
}

/// Runs a ticker to its end and returns the number of its turns.
fn run_ticker(state: &mut CounterState, sink: &mut Vec<Option<u16>>) -> usize {
    let mut turns: usize = 1;
    while turn(state, sink) {
        turns += 1;
    }
    turns
}

fn assert_idle(state: &CounterState) {
    assert_eq!(state.count(), None);
    assert!(!state.is_running());
    assert!(!state.stop_requested());
}

#[test]
fn arming_twice_keeps_the_second_value() {
    let mut state = CounterState::new();
    let mut seen = Vec::new();
    ready(&mut state, 5, &mut seen);
    ready(&mut state, 7, &mut seen);
    assert_eq!(state.count(), Some(7));
    assert!(!state.is_running());
    assert_eq!(seen, vec![Some(5), Some(7)]);
}

#[test]
fn arming_while_running_is_ignored() {
    let mut state = CounterState::new();
    let mut seen = Vec::new();
    ready(&mut state, 5, &mut seen);
    assert!(state.start());
    ready(&mut state, 9, &mut seen);
    assert_eq!(state.count(), Some(5));
    assert_eq!(run_ticker(&mut state, &mut seen), 6);
    assert_eq!(seen, vec![Some(5), Some(4), Some(3), Some(2), Some(1), Some(0)]);
    assert_idle(&state);
}

#[test]
fn arming_between_ticks_is_ignored() {
    let mut state = CounterState::new();
    let mut seen = Vec::new();
    ready(&mut state, 3, &mut seen);
    assert!(state.start());
    assert!(turn(&mut state, &mut seen));
    ready(&mut state, 9, &mut seen);
    assert!(turn(&mut state, &mut seen));
    ready(&mut state, 9, &mut seen);
    assert!(turn(&mut state, &mut seen));
    assert!(!turn(&mut state, &mut seen));
    assert_eq!(seen, vec![Some(3), Some(2), Some(1), Some(0)]);
    assert_idle(&state);
}

#[test]
fn double_start_spawns_one_ticker() {
    let mut state = CounterState::new();
    let mut seen = Vec::new();
    ready(&mut state, 3, &mut seen);
    let mut spawned: u32 = 0;
    if state.start() {
        spawned += 1;
    }
    if state.start() {
        spawned += 1;
    }
    assert_eq!(spawned, 1);
    seen.clear();
    assert_eq!(run_ticker(&mut state, &mut seen), 4);
    assert_eq!(seen, vec![Some(2), Some(1), Some(0)]);
    assert_idle(&state);
}

#[test]
fn start_without_arming_is_a_no_op() {
    let mut state = CounterState::new();
    assert!(!state.start());
    assert!(!state.is_running());
    assert_eq!(state.count(), None);
    assert!(!state.stop_requested());
}

#[test]
fn full_countdown_from_two() {
    let mut state = CounterState::new();
    assert_eq!(state.ready(2), Some(Notification { value: Some(2) }));
    assert!(state.start());
    assert_eq!(state.tick(), TickOutcome::Continue(Notification { value: Some(1) }));
    assert_eq!(state.tick(), TickOutcome::Continue(Notification { value: Some(0) }));
    assert_eq!(state.count(), Some(0));
    assert!(state.is_running());
    assert_eq!(state.tick(), TickOutcome::Terminate);
    assert_eq!(state.count(), None);
    assert!(!state.is_running());
}

#[test]
fn stop_right_after_start_ends_at_the_first_turn() {
    let mut state = CounterState::new();
    let mut seen = Vec::new();
    ready(&mut state, 100, &mut seen);
    assert!(state.start());
    state.stop();
    assert!(state.is_running());
    assert_eq!(state.count(), Some(100));
    assert_eq!(run_ticker(&mut state, &mut seen), 1);
    assert_eq!(seen, vec![Some(100)]);
    assert_idle(&state);
}

#[test]
fn stop_in_the_middle_ends_at_the_next_turn() {
    let mut state = CounterState::new();
    let mut seen = Vec::new();
    ready(&mut state, 100, &mut seen);
    assert!(state.start());
    assert!(turn(&mut state, &mut seen));
    assert!(turn(&mut state, &mut seen));
    state.stop();
    assert_eq!(state.count(), Some(98));
    assert!(!turn(&mut state, &mut seen));
    assert_eq!(seen, vec![Some(100), Some(99), Some(98)]);
    assert_idle(&state);
}

#[test]
fn control_calls_after_stop_change_nothing() {
    let mut state = CounterState::new();
    let mut seen = Vec::new();
    ready(&mut state, 10, &mut seen);
    assert!(state.start());
    state.stop();
    let requested = state.clone();
    ready(&mut state, 4, &mut seen);
    assert!(!state.start());
    state.stop();
    assert_eq!(state, requested);
    assert!(!turn(&mut state, &mut seen));
    assert_eq!(seen, vec![Some(10)]);
    assert_idle(&state);
}

#[test]
fn countdown_from_zero_reports_nothing_more() {
    let mut state = CounterState::new();
    let mut seen = Vec::new();
    ready(&mut state, 0, &mut seen);
    assert!(state.start());
    assert_eq!(run_ticker(&mut state, &mut seen), 1);
    assert_eq!(seen, vec![Some(0)]);
    assert_idle(&state);
}

#[test]
fn a_second_run_follows_the_first() {
    let mut state = CounterState::new();
    let mut seen = Vec::new();
    ready(&mut state, 1, &mut seen);
    assert!(state.start());
    assert_eq!(run_ticker(&mut state, &mut seen), 2);
    assert!(!state.start());
    ready(&mut state, 2, &mut seen);
    assert!(state.start());
    assert_eq!(run_ticker(&mut state, &mut seen), 3);
    assert_eq!(seen, vec![Some(1), Some(0), Some(2), Some(1), Some(0)]);
    assert_idle(&state);
}

#[test]
fn a_run_after_a_stopped_run_starts_clean() {
    let mut state = CounterState::new();
    let mut seen = Vec::new();
    ready(&mut state, 50, &mut seen);
    assert!(state.start());
    state.stop();
    assert_eq!(run_ticker(&mut state, &mut seen), 1);
    ready(&mut state, 2, &mut seen);
    assert!(state.start());
    assert!(!state.stop_requested());
    assert_eq!(run_ticker(&mut state, &mut seen), 3);
    assert_eq!(seen, vec![Some(50), Some(2), Some(1), Some(0)]);
}

#[test]
fn every_state_on_the_way_is_consistent() {
    let mut state = CounterState::new();
    let mut seen = Vec::new();
    let mut alive: u32 = 0;
    for round in 0..40u16 {
        match round % 7 {
            0 => ready(&mut state, round, &mut seen),
            1 | 4 => {
                if state.start() {
                    alive += 1;
                }
            }
            5 => state.stop(),
            _ => {
                if alive > 0 && !turn(&mut state, &mut seen) {
                    alive -= 1;
                }
            }
        }
        assert!(!state.stop_requested() || state.is_running());
        assert!(!state.is_running() || state.count().is_some());
        assert_eq!(alive, if state.is_running() { 1 } else { 0 });
    }
    assert!(seen.iter().all(|value| value.is_some()));
}

#[test]
fn the_ticker_reports_once_for_each_unit() {
    let mut state = CounterState::new();
    let mut seen = Vec::new();
    ready(&mut state, 300, &mut seen);
    assert!(state.start());
    seen.clear();
    assert_eq!(run_ticker(&mut state, &mut seen), 301);
    assert_eq!(seen.len(), 300);
    for (turn, value) in seen.iter().enumerate() {
        assert_eq!(*value, Some(299 - turn as u16));
    }
    assert_idle(&state);
}
