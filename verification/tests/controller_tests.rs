use keep_audio_awake::controller::{
    run_main, Action, AudioError, Controller, Event, Phase, AWAIT_POLLS, REST_TICKS,
    SHUTDOWN_STEP_BOUND,
};

fn instance_ok() -> Event {
    Event::Instance { created: true, already_exists: false }
}

/// Drives a fresh controller through the instance check, a successful open
/// and a successful prepare, up to the first flag read.
fn session_at_flag_check() -> Controller {
    let mut c = Controller::new();
    assert_eq!(Action::CheckInstance, c.action());
    c.step(instance_ok());
    assert_eq!(Action::OpenDevice, c.action());
    c.step(Event::Code(0));
    assert_eq!(Action::PrepareHeader, c.action());
    c.step(Event::Code(0));
    assert_eq!(Action::ReadFlag, c.action());
    assert!(c.device_open);
    assert!(c.header_prepared);
    c
}

/// Runs the shutdown path from the flag check and checks the action order:
/// unprepare strictly before close.
fn shut_down(c: &mut Controller) {
    c.step(Event::Flag(false));
    assert_eq!(Action::UnprepareHeader, c.action());
    c.step(Event::Code(0));
    assert!(!c.header_prepared);
    assert_eq!(Action::CloseDevice, c.action());
    c.step(Event::Code(0));
    assert!(!c.device_open);
    assert!(c.is_done());
    assert_eq!(Action::Finish, c.action());
}

#[test]
fn test_second_instance_exits_immediately() {
    let c = run_main(&vec![Event::Instance { created: true, already_exists: true }]);
    assert!(c.is_done());
    assert_eq!(Err(AudioError::AlreadyRunning), c.outcome());
    assert!(!c.device_open);
    assert!(!c.header_prepared);
    assert!(!c.has_played);

    let c = run_main(&vec![Event::Instance { created: false, already_exists: false }]);
    assert_eq!(Err(AudioError::AlreadyRunning), c.outcome());
}

#[test]
fn test_zero_cycles_when_flag_clear_at_entry() {
    let c = run_main(&vec![
        instance_ok(),
        Event::Code(0),
        Event::Code(0),
        Event::Flag(false),
        Event::Code(0),
        Event::Code(0),
    ]);
    assert!(c.is_done());
    assert_eq!(Ok(()), c.outcome());
    assert!(!c.has_played);
    assert!(!c.device_open);
    assert!(!c.header_prepared);
}

#[test]
fn test_open_failure_is_fatal() {
    let c = run_main(&vec![instance_ok(), Event::Code(1)]);
    assert!(c.is_done());
    assert_eq!(Err(AudioError::DeviceUnavailable(1)), c.outcome());
    assert!(!c.device_open);
}

#[test]
fn test_prepare_failure_still_closes_device() {
    let mut c = Controller::new();
    c.step(instance_ok());
    c.step(Event::Code(0));
    assert!(c.device_open);
    c.step(Event::Code(5));
    // The header was never prepared, so no unprepare happens — but the open
    // device is still closed before the run ends.
    assert_eq!(Action::CloseDevice, c.action());
    assert!(!c.header_prepared);
    c.step(Event::Code(0));
    assert!(c.is_done());
    assert!(!c.device_open);
    assert_eq!(Err(AudioError::PrepareFailed(5)), c.outcome());
}

#[test]
fn test_write_failure_resets_and_continues() {
    let mut c = session_at_flag_check();
    c.step(Event::Flag(true));
    assert_eq!(Action::PlayBuffer, c.action());
    c.step(Event::Code(3));
    assert_eq!(Action::ResetDevice, c.action());
    c.step(Event::Code(0));
    // The loop rests and goes on as if the cycle had completed.
    assert_eq!(Action::SleepTick, c.action());
    assert_eq!(Ok(()), c.outcome());
    assert!(!c.has_played);
}

#[test]
fn test_reset_failure_shuts_down_cleanly() {
    let mut c = session_at_flag_check();
    c.step(Event::Flag(true));
    c.step(Event::Code(3));
    c.step(Event::Code(7));
    assert_eq!(Action::UnprepareHeader, c.action());
    c.step(Event::Code(0));
    assert_eq!(Action::CloseDevice, c.action());
    c.step(Event::Code(0));
    assert!(c.is_done());
    assert_eq!(Err(AudioError::WriteFailed(7)), c.outcome());
    assert!(!c.device_open);
    assert!(!c.header_prepared);
}

#[test]
fn test_await_ends_by_timeout_when_done_bit_never_set() {
    let mut c = session_at_flag_check();
    c.step(Event::Flag(true));
    c.step(Event::Code(0));
    assert!(c.has_played);
    assert_eq!(Action::PollDone, c.action());
    for i in 0..AWAIT_POLLS {
        assert_eq!(Action::PollDone, c.action(), "still polling before poll {}", i);
        c.step(Event::DoneFlag(false));
    }
    // The wait has used its whole budget and given up; the cycle goes on.
    assert_eq!(Action::SleepTick, c.action());
    assert!(c.await_timed_out);
    assert_eq!(Ok(()), c.outcome());
}

#[test]
fn test_await_ends_when_done_bit_is_set() {
    let mut c = session_at_flag_check();
    c.step(Event::Flag(true));
    c.step(Event::Code(0));
    c.step(Event::DoneFlag(false));
    c.step(Event::DoneFlag(true));
    assert_eq!(Action::SleepTick, c.action());
    assert!(!c.await_timed_out);
}

#[test]
fn test_rest_runs_full_interval_then_rechecks_flag() {
    let mut c = session_at_flag_check();
    c.step(Event::Flag(true));
    c.step(Event::Code(0));
    c.step(Event::DoneFlag(true));
    for _ in 0..REST_TICKS {
        assert_eq!(Action::SleepTick, c.action());
        c.step(Event::Flag(true));
    }
    // The rest interval is over: back to the top of the cycle.
    assert_eq!(Action::ReadFlag, c.action());
}

#[test]
fn test_stop_during_rest_is_honoured_within_bound() {
    let mut c = session_at_flag_check();
    c.step(Event::Flag(true));
    c.step(Event::Code(0));
    c.step(Event::DoneFlag(true));
    c.step(Event::Flag(true));
    c.step(Event::Flag(true));
    // The stop signal arrives; from here every event reports a cleared flag
    // and a device that never completes, and the session must still finish
    // within the stated bound.
    let mut steps: u32 = 0;
    while !c.is_done() {
        assert!(steps < SHUTDOWN_STEP_BOUND);
        match c.action() {
            Action::ReadFlag | Action::SleepTick => c.step(Event::Flag(false)),
            Action::PollDone => c.step(Event::DoneFlag(false)),
            Action::UnprepareHeader | Action::CloseDevice => c.step(Event::Code(0)),
            a => panic!("unexpected action during shutdown: {:?}", a),
        }
        steps += 1;
    }
    assert_eq!(Ok(()), c.outcome());
    assert!(c.has_played);
    assert!(!c.device_open);
    assert!(!c.header_prepared);
}

#[test]
fn test_successive_sessions_start_clean() {
    // One full session, shut down cleanly...
    let mut first = session_at_flag_check();
    first.step(Event::Flag(true));
    first.step(Event::Code(0));
    first.step(Event::DoneFlag(true));
    first.step(Event::Flag(false));
    shut_down(&mut first);
    assert_eq!(Ok(()), first.outcome());
    // ...leaves nothing behind, and a second one succeeds the same way.
    let mut second = session_at_flag_check();
    shut_down(&mut second);
    assert_eq!(Ok(()), second.outcome());
}

#[test]
fn test_cleanup_failures_are_not_fatal() {
    let mut c = session_at_flag_check();
    c.step(Event::Flag(false));
    c.step(Event::Code(9));
    c.step(Event::Code(4));
    assert!(c.is_done());
    assert_eq!(Ok(()), c.outcome());
    assert_eq!(Some(9), c.unprepare_code);
    assert_eq!(Some(4), c.close_code);
}

#[test]
fn test_run_main_stops_at_event_of_wrong_kind() {
    let c = run_main(&vec![Event::Flag(true)]);
    assert_eq!(Phase::CheckingInstance, c.phase);
    assert!(!c.is_done());

    let c = run_main(&vec![instance_ok(), Event::Flag(true), Event::Code(0)]);
    assert_eq!(Phase::Opening, c.phase);
}

#[test]
fn test_run_main_ignores_events_after_done() {
    let c = run_main(&vec![
        Event::Instance { created: true, already_exists: true },
        Event::Code(0),
        Event::Code(0),
    ]);
    assert!(c.is_done());
    assert_eq!(Err(AudioError::AlreadyRunning), c.outcome());
    assert!(!c.device_open);
}
