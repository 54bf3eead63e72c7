use mcvcli::attach::{attach_step, AttachAction, AttachEvent, AttachPhase};
use mcvcli::error::SessionError;
use mcvcli::shutdown::{
    child_exit_code, stop_line, stop_precheck, stop_step, StopAction, StopEvent, StopPhase,
};

/// Drive a whole stop run, returning the final phase, how many kill signals
/// were issued, and how many clears were requested.
fn run(mut phase: StopPhase, events: &[StopEvent]) -> (StopPhase, usize, usize) {
    let mut kills = 0;
    let mut clears = 0;
    for event in events {
        let (next, action) = stop_step(phase, *event);
        if action == StopAction::Kill {
            kills += 1;
        }
        if action == StopAction::ClearSession {
            clears += 1;
        }
        phase = next;
    }
    (phase, kills, clears)
}

#[test]
fn write_completes_before_timer_starts() {
    let (phase, action) = stop_step(StopPhase::SendingStop, StopEvent::StopWritten);
    assert_eq!(phase, StopPhase::AwaitingExit { killed: false });
    assert_eq!(action, StopAction::StartTimer);
}

#[test]
fn broken_pipe_short_circuits_to_confirmation() {
    let (phase, action) = stop_step(StopPhase::SendingStop, StopEvent::StopWriteBroken);
    assert_eq!(phase, StopPhase::AwaitingExit { killed: false });
    assert_eq!(action, StopAction::Poll);
    let (phase, action) = stop_step(phase, StopEvent::PolledDead);
    assert_eq!(phase, StopPhase::Stopped { graceful: true });
    assert_eq!(action, StopAction::ClearSession);
}

#[test]
fn graceful_stop_scenario() {
    // Identifier "ab12cde", stop command written, oracle flips false after
    // two polls, generous timeout: graceful branch, zero kill signals.
    let events = [
        StopEvent::StopWritten,
        StopEvent::PolledAlive,
        StopEvent::PolledAlive,
        StopEvent::PolledDead,
    ];
    let (phase, kills, clears) = run(StopPhase::SendingStop, &events);
    assert_eq!(phase, StopPhase::Stopped { graceful: true });
    assert_eq!(kills, 0);
    assert_eq!(clears, 1);
}

#[test]
fn escalation_scenario() {
    // An uncooperative child: the timeout fires, one kill signal goes out,
    // and the session is cleared only once death is confirmed afterward.
    let events = [
        StopEvent::StopWritten,
        StopEvent::PolledAlive,
        StopEvent::TimeoutElapsed,
        StopEvent::PolledAlive,
        StopEvent::PolledDead,
    ];
    let (phase, kills, clears) = run(StopPhase::SendingStop, &events);
    assert_eq!(phase, StopPhase::Stopped { graceful: false });
    assert_eq!(kills, 1);
    assert_eq!(clears, 1);

    // The kill was issued exactly at the timeout, not at the clear.
    let (after_timeout, action) = stop_step(
        StopPhase::AwaitingExit { killed: false },
        StopEvent::TimeoutElapsed,
    );
    assert_eq!(action, StopAction::Kill);
    assert_eq!(after_timeout, StopPhase::AwaitingExit { killed: true });
}

#[test]
fn no_double_kill_on_second_timeout() {
    let (phase, action) = stop_step(
        StopPhase::AwaitingExit { killed: true },
        StopEvent::TimeoutElapsed,
    );
    assert_eq!(phase, StopPhase::AwaitingExit { killed: true });
    assert_eq!(action, StopAction::Stay);
}

#[test]
fn stopped_is_terminal() {
    // A second stop call that arrives after the first finished observes the
    // stopped state and changes nothing.
    let all_events = [
        StopEvent::StopWritten,
        StopEvent::StopWriteBroken,
        StopEvent::PolledAlive,
        StopEvent::PolledDead,
        StopEvent::TimeoutElapsed,
    ];
    let (phase, kills, clears) = run(StopPhase::Stopped { graceful: true }, &all_events);
    assert_eq!(phase, StopPhase::Stopped { graceful: true });
    assert_eq!(kills, 0);
    assert_eq!(clears, 0);
}

#[test]
fn two_interleaved_stops_kill_at_most_once_each() {
    // Two coordinators race on the same dying child: each run stays within
    // one kill, and both end stopped.
    let first = [
        StopEvent::StopWritten,
        StopEvent::PolledAlive,
        StopEvent::PolledDead,
    ];
    let second = [
        StopEvent::StopWriteBroken,
        StopEvent::PolledDead,
    ];
    let (phase_a, kills_a, _) = run(StopPhase::SendingStop, &first);
    let (phase_b, kills_b, _) = run(StopPhase::SendingStop, &second);
    assert_eq!(phase_a, StopPhase::Stopped { graceful: true });
    assert_eq!(phase_b, StopPhase::Stopped { graceful: true });
    assert!(kills_a + kills_b == 0);
}

#[test]
fn stop_precheck_requires_live_session() {
    assert_eq!(stop_precheck(false), Err(SessionError::NotRunning));
    assert_eq!(stop_precheck(true), Ok(()));
}

#[test]
fn stop_line_appends_terminator() {
    assert_eq!(stop_line("stop"), "stop\n");
    assert_eq!(stop_line("end"), "end\n");
}

#[test]
fn child_exit_code_propagates() {
    assert_eq!(child_exit_code(Some(3)), 3);
    assert_eq!(child_exit_code(Some(0)), 0);
    assert_eq!(child_exit_code(None), 0);
}

#[test]
fn attach_bridges_while_alive() {
    let (phase, action) = attach_step(AttachPhase::Bridging, AttachEvent::PolledAlive);
    assert_eq!(phase, AttachPhase::Bridging);
    assert_eq!(action, AttachAction::Poll);
}

#[test]
fn attach_ends_on_death() {
    let (phase, action) = attach_step(AttachPhase::Bridging, AttachEvent::PolledDead);
    assert_eq!(phase, AttachPhase::Ended);
    assert_eq!(action, AttachAction::StopCopies);
}

#[test]
fn attach_end_is_terminal() {
    for event in [AttachEvent::PolledAlive, AttachEvent::PolledDead] {
        let (phase, action) = attach_step(AttachPhase::Ended, event);
        assert_eq!(phase, AttachPhase::Ended);
        assert_eq!(action, AttachAction::Stay);
    }
}
