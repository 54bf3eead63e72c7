use crate::error::SessionError;
use vstd::prelude::*;
use vstd::string::StringExecFns;

verus! {

/// Where a stop run stands.
#[derive(Clone, Copy, Debug, PartialEq, Eq, Structural)]
pub enum StopPhase {
    /// The stop command is being delivered to the child's stdin.
    SendingStop,
    /// The command was delivered (or the channel was already broken) and
    /// death is awaited; `killed` records whether the forceful signal has
    /// been issued.
    AwaitingExit { killed: bool },
    /// Death is confirmed and Session State cleared; `graceful` records
    /// whether the child exited without a forceful signal.
    Stopped { graceful: bool },
}

/// What the coordinator observed since its last step.
#[derive(Clone, Copy, Debug, PartialEq, Eq, Structural)]
pub enum StopEvent {
    /// The stop command and its line terminator were written in full.
    StopWritten,
    /// Writing the stop command failed with a broken channel: the child is
    /// already gone.
    StopWriteBroken,
    /// A liveness poll reported the child alive.
    PolledAlive,
    /// A liveness poll reported the child dead.
    PolledDead,
    /// The escalation timeout elapsed.
    TimeoutElapsed,
}

/// What the caller must do after a step.
#[derive(Clone, Copy, Debug, PartialEq, Eq, Structural)]
pub enum StopAction {
    /// The write completed: start the escalation timer now.
    StartTimer,
    /// Wait one poll interval, then poll the liveness oracle again.
    Poll,
    /// Send the forceful kill signal to the recorded process id.
    Kill,
    /// Death is confirmed: clear the Session State.
    ClearSession,
    /// Nothing to do.
    Stay,
}

/// One step of the graceful-stop-then-escalate protocol.
///
/// The write of the stop command is sequenced strictly before the timer
/// starts: the timer's `StartTimer` action is issued only on `StopWritten`.
/// A broken channel while writing means the child is already dead, so the
/// run short-circuits to death confirmation rather than to an error.
/// Events that cannot arrive in a phase change nothing.
pub open spec fn spec_stop_step(phase: StopPhase, event: StopEvent) -> (StopPhase, StopAction) {
    match (phase, event) {
        (StopPhase::SendingStop, StopEvent::StopWritten) => (
            StopPhase::AwaitingExit { killed: false },
            StopAction::StartTimer,
        ),
        (StopPhase::SendingStop, StopEvent::StopWriteBroken) => (
            StopPhase::AwaitingExit { killed: false },
            StopAction::Poll,
        ),
        (StopPhase::AwaitingExit { killed }, StopEvent::PolledAlive) => (
            StopPhase::AwaitingExit { killed },
            StopAction::Poll,
        ),
        (StopPhase::AwaitingExit { killed }, StopEvent::PolledDead) => (
            StopPhase::Stopped { graceful: !killed },
            StopAction::ClearSession,
        ),
        (StopPhase::AwaitingExit { killed: false }, StopEvent::TimeoutElapsed) => (
            StopPhase::AwaitingExit { killed: true },
            StopAction::Kill,
        ),
        (StopPhase::AwaitingExit { killed: true }, StopEvent::TimeoutElapsed) => (
            StopPhase::AwaitingExit { killed: true },
            StopAction::Stay,
        ),
        (p, _) => (p, StopAction::Stay),
    }
}

/// Take one step of the stop protocol.
pub fn stop_step(phase: StopPhase, event: StopEvent) -> (r: (StopPhase, StopAction))
    ensures
        r == spec_stop_step(phase, event),
{
    match (phase, event) {
        (StopPhase::SendingStop, StopEvent::StopWritten) => (
            StopPhase::AwaitingExit { killed: false },
            StopAction::StartTimer,
        ),
        (StopPhase::SendingStop, StopEvent::StopWriteBroken) => (
            StopPhase::AwaitingExit { killed: false },
            StopAction::Poll,
        ),
        (StopPhase::AwaitingExit { killed }, StopEvent::PolledAlive) => (
            StopPhase::AwaitingExit { killed },
            StopAction::Poll,
        ),
        (StopPhase::AwaitingExit { killed }, StopEvent::PolledDead) => (
            StopPhase::Stopped { graceful: !killed },
            StopAction::ClearSession,
        ),
        (StopPhase::AwaitingExit { killed: false }, StopEvent::TimeoutElapsed) => (
            StopPhase::AwaitingExit { killed: true },
            StopAction::Kill,
        ),
        (StopPhase::AwaitingExit { killed: true }, StopEvent::TimeoutElapsed) => (
            StopPhase::AwaitingExit { killed: true },
            StopAction::Stay,
        ),
        (p, _) => (p, StopAction::Stay),
    }
}

/// The phase a run reaches after consuming `events` from `phase`.
pub open spec fn spec_run_phase(phase: StopPhase, events: Seq<StopEvent>) -> StopPhase
    decreases events.len(),
{
    if events.len() == 0 {
        phase
    } else {
        spec_stop_step(spec_run_phase(phase, events.drop_last()), events.last()).0
    }
}

/// How many forceful-kill signals a run issues.
pub open spec fn spec_kill_count(phase: StopPhase, events: Seq<StopEvent>) -> nat
    decreases events.len(),
{
    if events.len() == 0 {
        0
    } else {
        spec_kill_count(phase, events.drop_last()) + if spec_stop_step(
            spec_run_phase(phase, events.drop_last()),
            events.last(),
        ).1 == StopAction::Kill {
            1nat
        } else {
            0nat
        }
    }
}

/// Whether a phase records that the forceful signal has been issued.
pub open spec fn spec_kill_flag(phase: StopPhase) -> bool {
    match phase {
        StopPhase::SendingStop => false,
        StopPhase::AwaitingExit { killed } => killed,
        StopPhase::Stopped { graceful } => !graceful,
    }
}

/// A step issues `Kill` exactly when it flips the kill flag, and the flag
/// never goes back down.
proof fn lemma_kill_flag_step(phase: StopPhase, event: StopEvent)
    ensures
        (spec_stop_step(phase, event).1 == StopAction::Kill) == (!spec_kill_flag(phase)
            && spec_kill_flag(spec_stop_step(phase, event).0)),
        spec_kill_flag(phase) ==> spec_kill_flag(spec_stop_step(phase, event).0),
{
}

/// A run's kill count is determined by the kill flag at its two ends.
proof fn lemma_kill_count_is_flag_flip(phase: StopPhase, events: Seq<StopEvent>)
    ensures
        spec_kill_count(phase, events) == if spec_kill_flag(spec_run_phase(phase, events))
            && !spec_kill_flag(phase) {
            1nat
        } else {
            0nat
        },
        spec_kill_flag(phase) ==> spec_kill_flag(spec_run_phase(phase, events)),
    decreases events.len(),
{
    if events.len() > 0 {
        lemma_kill_count_is_flag_flip(phase, events.drop_last());
        lemma_kill_flag_step(spec_run_phase(phase, events.drop_last()), events.last());
    }
}

/// However polls, timeouts and write outcomes interleave — including the
/// interleaving of two stop calls driving the same session — a run issues at
/// most one forceful-kill signal.
pub proof fn law_no_double_kill(phase: StopPhase, events: Seq<StopEvent>)
    ensures
        spec_kill_count(phase, events) <= 1,
{
    lemma_kill_count_is_flag_flip(phase, events);
}

/// A cooperative child: while the escalation timeout never fires, no
/// forceful-kill signal is issued, however long the run.
pub proof fn law_graceful_stop_never_kills(phase: StopPhase, events: Seq<StopEvent>)
    requires
        forall|i: int| 0 <= i < events.len() ==> events[i] != StopEvent::TimeoutElapsed,
    ensures
        spec_kill_count(phase, events) == 0,
    decreases events.len(),
{
    if events.len() > 0 {
        law_graceful_stop_never_kills(phase, events.drop_last());
    }
}

/// The forceful-kill signal is issued exactly when the escalation timeout
/// elapses while the child is still being awaited and has not been killed
/// already.
pub proof fn law_kill_exactly_on_timeout(phase: StopPhase, event: StopEvent)
    ensures
        (spec_stop_step(phase, event).1 == StopAction::Kill) <==> (phase == (
        StopPhase::AwaitingExit { killed: false }) && event == StopEvent::TimeoutElapsed),
{
}

/// The escalation timer starts only on the step that saw the stop command
/// written in full: the write is sequenced strictly before the timer, so
/// the child has seen the command before any kill is considered.
pub proof fn law_timer_only_after_write(phase: StopPhase, event: StopEvent)
    ensures
        spec_stop_step(phase, event).1 == StopAction::StartTimer <==> (phase
            == StopPhase::SendingStop && event == StopEvent::StopWritten),
{
}

/// Session State is cleared only on the step that confirms death: a
/// liveness poll that reports the child dead. In particular, after an
/// escalation the clear still waits for the oracle's confirmation.
pub proof fn law_clear_only_after_death(phase: StopPhase, event: StopEvent)
    ensures
        spec_stop_step(phase, event).1 == StopAction::ClearSession ==> event
            == StopEvent::PolledDead,
        spec_stop_step(phase, event).1 == StopAction::ClearSession ==> spec_stop_step(
            phase,
            event,
        ).0 is Stopped,
{
}

/// Once a run has stopped, it stays stopped: further events — a second stop
/// call observing the same session — change nothing, issue no signal and
/// clear nothing twice.
pub proof fn law_stop_idempotent(graceful: bool, events: Seq<StopEvent>)
    ensures
        spec_run_phase(StopPhase::Stopped { graceful }, events) == (StopPhase::Stopped {
            graceful,
        }),
        spec_kill_count(StopPhase::Stopped { graceful }, events) == 0,
    decreases events.len(),
{
    if events.len() > 0 {
        law_stop_idempotent(graceful, events.drop_last());
    }
}

/// A full stop run that confirms death without the timeout ever firing ends
/// in the graceful outcome.
pub proof fn law_graceful_branch(events: Seq<StopEvent>)
    requires
        forall|i: int| 0 <= i < events.len() ==> events[i] != StopEvent::TimeoutElapsed,
        spec_run_phase(StopPhase::SendingStop, events) is Stopped,
    ensures
        spec_run_phase(StopPhase::SendingStop, events) == (StopPhase::Stopped { graceful: true }),
{
    law_graceful_stop_never_kills(StopPhase::SendingStop, events);
    lemma_kill_count_is_flag_flip(StopPhase::SendingStop, events);
}

/// A stop may begin only against a live session; with none, the command
/// fails with `NotRunning` and the protocol is never entered.
pub fn stop_precheck(alive: bool) -> (r: Result<(), SessionError>)
    ensures
        r is Ok <==> alive,
        r matches Err(e) ==> e == SessionError::NotRunning,
{
    if alive {
        Ok(())
    } else {
        Err(SessionError::NotRunning)
    }
}

/// The exit code the tool propagates after a foreground child exits: the
/// child's own code, or zero where the OS reports none (killed by signal).
pub fn child_exit_code(code: Option<i32>) -> (r: i32)
    ensures
        code matches Some(c) ==> r == c,
        code is None ==> r == 0,
{
    match code {
        Some(c) => c,
        None => 0,
    }
}

/// The full line written to the child's stdin to request a graceful stop:
/// the stop command with its line terminator. The child has seen this line
/// in full before the escalation timer may start.
pub fn stop_line(command: &str) -> (r: String)
    ensures
        r@ == command@ + "\n"@,
{
    let mut line = command.to_owned();
    line.append("\n");
    line
}

} // verus!
