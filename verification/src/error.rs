use vstd::prelude::*;

verus! {

/// The failures a session operation can surface to the operator.
///
/// Every variant maps to a short message and a non-zero exit code; none is
/// retried automatically.
#[derive(Clone, Copy, Debug, PartialEq, Eq, Structural)]
pub enum SessionError {
    /// Attach, stop or status was requested with no live session.
    NotRunning,
    /// Start was requested while a live session exists.
    AlreadyRunning,
    /// The operating system refused to create the child process.
    SpawnFailure,
    /// A named channel could not be created or opened.
    ChannelUnavailable,
    /// The process-table query itself failed; treated as not running.
    LivenessAmbiguous,
    /// Detached mode was requested on a platform that does not support it.
    PlatformUnsupported,
}

impl SessionError {
    /// The message shown to the operator for this failure.
    pub fn message(&self) -> (r: &'static str)
        ensures
            r@ == self.spec_message(),
    {
        match self {
            SessionError::NotRunning => "server is not running",
            SessionError::AlreadyRunning => "server is already running",
            SessionError::SpawnFailure => "failed to spawn the server process",
            SessionError::ChannelUnavailable => "failed to open the server channels",
            SessionError::LivenessAmbiguous => "could not inspect the server process",
            SessionError::PlatformUnsupported => "detached mode is not supported on this platform",
        }
    }

    pub open spec fn spec_message(&self) -> Seq<char> {
        match self {
            SessionError::NotRunning => "server is not running"@,
            SessionError::AlreadyRunning => "server is already running"@,
            SessionError::SpawnFailure => "failed to spawn the server process"@,
            SessionError::ChannelUnavailable => "failed to open the server channels"@,
            SessionError::LivenessAmbiguous => "could not inspect the server process"@,
            SessionError::PlatformUnsupported => (
            "detached mode is not supported on this platform"@),
        }
    }
}

/// The process exit code for a command outcome: zero on success, one on any
/// user-facing failure.
pub fn exit_code<T>(outcome: &Result<T, SessionError>) -> (r: i32)
    ensures
        r == 0 <==> outcome.is_ok(),
        outcome.is_err() ==> r == 1,
{
    match outcome {
        Ok(_) => 0,
        Err(_) => 1,
    }
}

} // verus!
