use crate::config::Config;
use crate::detached::{spec_alive, ProcessProbe};
use crate::error::SessionError;
use vstd::prelude::*;

verus! {

/// Where an attach run stands.
#[derive(Clone, Copy, Debug, PartialEq, Eq, Structural)]
pub enum AttachPhase {
    /// The three copy operations bridge local I/O to the channel set while
    /// the liveness oracle is polled.
    Bridging,
    /// The oracle reported the child dead; the copies are being stopped and
    /// the end of the server is reported.
    Ended,
}

/// What the attacher observed since its last step.
#[derive(Clone, Copy, Debug, PartialEq, Eq, Structural)]
pub enum AttachEvent {
    /// A liveness poll reported the child alive.
    PolledAlive,
    /// A liveness poll reported the child dead.
    PolledDead,
}

/// What the caller must do after a step. Attaching is strictly
/// observational plus input-forwarding: no action ever signals the child or
/// writes Session State, and tearing down the copies leaves the child's own
/// descriptors untouched.
#[derive(Clone, Copy, Debug, PartialEq, Eq, Structural)]
pub enum AttachAction {
    /// Wait one poll interval, then poll the liveness oracle again.
    Poll,
    /// Stop the three copy operations and report that the server stopped.
    StopCopies,
    /// Nothing to do.
    Stay,
}

/// One step of the attach loop: keep bridging while the child lives, end on
/// the oracle's true-to-false transition, and stay ended.
pub open spec fn spec_attach_step(phase: AttachPhase, event: AttachEvent) -> (
    AttachPhase,
    AttachAction,
) {
    match (phase, event) {
        (AttachPhase::Bridging, AttachEvent::PolledAlive) => (
            AttachPhase::Bridging,
            AttachAction::Poll,
        ),
        (AttachPhase::Bridging, AttachEvent::PolledDead) => (
            AttachPhase::Ended,
            AttachAction::StopCopies,
        ),
        (AttachPhase::Ended, _) => (AttachPhase::Ended, AttachAction::Stay),
    }
}

/// Take one step of the attach loop.
pub fn attach_step(phase: AttachPhase, event: AttachEvent) -> (r: (AttachPhase, AttachAction))
    ensures
        r == spec_attach_step(phase, event),
{
    match (phase, event) {
        (AttachPhase::Bridging, AttachEvent::PolledAlive) => (
            AttachPhase::Bridging,
            AttachAction::Poll,
        ),
        (AttachPhase::Bridging, AttachEvent::PolledDead) => (
            AttachPhase::Ended,
            AttachAction::StopCopies,
        ),
        (AttachPhase::Ended, _) => (AttachPhase::Ended, AttachAction::Stay),
    }
}

/// An attach may proceed only against a live session: it yields the session
/// identifier whose channel set to open, and fails with `NotRunning`
/// otherwise.
pub fn attach_precheck(config: &Config, alive: bool) -> (r: Result<String, SessionError>)
    requires
        config.session_consistent(),
        alive ==> config.pid is Some,
    ensures
        r is Ok <==> alive,
        r matches Ok(id) ==> config.identifier matches Some(cid) && id@ == cid@,
        r matches Err(e) ==> e == SessionError::NotRunning,
{
    if !alive {
        return Err(SessionError::NotRunning);
    }
    match &config.identifier {
        Some(id) => Ok(id.clone()),
        None => {
            proof {
                assert(false);
            }
            Err(SessionError::NotRunning)
        },
    }
}

/// After a completed stop the Session State is empty, so a later attach has
/// no process id to hand the oracle, and the oracle reports not running
/// whatever the process table would say: the attach must fail with
/// `NotRunning`.
pub proof fn law_stop_then_attach_refused(config: Config, probe: ProcessProbe)
    ensures
        config.spec_clear_session().pid is None,
        config.spec_clear_session().identifier is None,
        !spec_alive(config.spec_clear_session().pid, probe),
{
}

/// The bytes handed onward from one local read: exactly the `count` bytes
/// that were read, unchanged and in order.
pub fn forward_chunk(buffer: &[u8], count: usize) -> (r: Vec<u8>)
    requires
        count <= buffer@.len(),
    ensures
        r@ == buffer@.take(count as int),
{
    let mut out: Vec<u8> = Vec::new();
    let mut i: usize = 0;
    while i < count
        invariant
            count <= buffer@.len(),
            i <= count,
            out@ == buffer@.take(i as int),
        decreases count - i,
    {
        out.push(buffer[i]);
        assert(out@ =~= buffer@.take(i + 1));
        i += 1;
    }
    out
}

} // verus!
