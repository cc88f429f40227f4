use ton_connection::run_loop::{LoopState, POLL_TIMEOUT_MILLIS};

#[test]
fn poll_timeout_is_one_second() {
    assert_eq!(POLL_TIMEOUT_MILLIS, 1000);
}

#[test]
fn running_worker_keeps_running_while_held() {
    let mut state = LoopState::Running;
    for _ in 0..10 {
        state = state.look(true);
        assert_eq!(state, LoopState::Running);
        assert!(state.polls());
    }
}

#[test]
fn worker_stops_at_the_first_look_that_finds_nobody() {
    let state = LoopState::Running.look(true).look(false);
    assert_eq!(state, LoopState::Terminated);
    assert!(!state.polls());
}

#[test]
fn stopped_worker_never_starts_again() {
    let mut state = LoopState::Running.look(false);
    for held in [true, false, true, true] {
        state = state.look(held);
        assert_eq!(state, LoopState::Terminated);
        assert!(!state.polls());
    }
}

#[test]
fn terminated_worker_stays_terminated() {
    assert_eq!(LoopState::Terminated.look(true), LoopState::Terminated);
    assert_eq!(LoopState::Terminated.look(false), LoopState::Terminated);
}
