use camera_recorder::camera::session::{
    session_exited, session_started, RecordingSessionOutcome, SessionFailure,
};
use camera_recorder::ServiceState;

#[test]
fn connected_never_exceeds_total() {
    let mut state = ServiceState::new(2);
    assert_eq!(state.cameras_connected(), 0);
    assert_eq!(state.total_cameras(), 2);
    state.mark_connected();
    assert_eq!(state.cameras_connected(), 1);
    state.mark_connected();
    assert_eq!(state.cameras_connected(), 2);
    state.mark_connected();
    assert_eq!(state.cameras_connected(), 2);
    assert_eq!(state.total_cameras(), 2);
}

#[test]
fn connected_never_goes_below_zero() {
    let mut state = ServiceState::new(3);
    state.mark_disconnected();
    assert_eq!(state.cameras_connected(), 0);
    state.mark_connected();
    state.mark_disconnected();
    state.mark_disconnected();
    assert_eq!(state.cameras_connected(), 0);
    assert_eq!(state.total_cameras(), 3);
}

#[test]
fn counters_stay_in_range_over_any_history() {
    let mut state = ServiceState::new(4);
    let mut x: u32 = 99;
    for _ in 0..5000 {
        x = x.wrapping_mul(1_103_515_245).wrapping_add(12345);
        if (x >> 16) % 3 == 0 {
            state.mark_connected();
        } else {
            state.mark_disconnected();
        }
        assert!(state.cameras_connected() <= state.total_cameras());
        assert_eq!(state.total_cameras(), 4);
    }
}

#[test]
fn ready_only_when_all_cameras_are_connected() {
    let mut state = ServiceState::new(2);
    assert!(!state.is_ready());
    assert_eq!(state.readiness_report(), "NOT_READY: 0/2 cameras connected");
    state.mark_connected();
    assert!(!state.is_ready());
    assert_eq!(state.readiness_report(), "NOT_READY: 1/2 cameras connected");
    state.mark_connected();
    assert!(state.is_ready());
    assert_eq!(state.readiness_report(), "READY");
}

#[test]
fn no_cameras_is_ready() {
    let mut state = ServiceState::new(0);
    assert!(state.is_ready());
    assert_eq!(state.readiness_report(), "READY");
    state.mark_connected();
    assert_eq!(state.cameras_connected(), 0);
    assert!(state.is_ready());
}

#[test]
fn readiness_report_with_many_cameras() {
    let mut state = ServiceState::new(120);
    for _ in 0..17 {
        state.mark_connected();
    }
    assert_eq!(state.readiness_report(), "NOT_READY: 17/120 cameras connected");
}

#[test]
fn session_start_and_exit_move_the_count() {
    let mut state = ServiceState::new(2);
    session_started(&mut state);
    assert_eq!(state.cameras_connected(), 1);
    let outcome = session_exited(&mut state, true, Some(0));
    assert_eq!(outcome, RecordingSessionOutcome::Ended);
    assert_eq!(state.cameras_connected(), 0);

    session_started(&mut state);
    let outcome = session_exited(&mut state, false, Some(1));
    assert_eq!(outcome, RecordingSessionOutcome::Failed(SessionFailure::Exit { code: Some(1) }));
    assert_eq!(state.cameras_connected(), 0);

    // Killed by a signal: no exit code.
    let outcome = session_exited(&mut state, false, None);
    assert_eq!(outcome, RecordingSessionOutcome::Failed(SessionFailure::Exit { code: None }));
    assert_eq!(state.cameras_connected(), 0);
}
