use crate::error::SessionError;
use crate::text::{contains_substring, str_contains};
use vstd::prelude::*;
use vstd::string::StringExecFns;

verus! {

/// The path fragment that marks a process as an instance this tool launched:
/// the managed runtime the child is always started through.
pub open spec fn spec_marker() -> Seq<char> {
    "java"@
}

/// What one query of the OS process table found for a given process id.
pub enum ProcessProbe {
    /// No process with that id exists.
    NotFound,
    /// A process exists; `exe` is its resolved executable path, where the
    /// table exposes one that is valid text.
    Found { exe: Option<String> },
    /// The query itself failed (permissions, platform error).
    QueryFailed,
}

/// The probe found a process whose executable path carries the identity
/// marker.
pub open spec fn spec_marker_present(probe: ProcessProbe) -> bool {
    match probe {
        ProcessProbe::Found { exe } => match exe {
            Some(path) => str_contains(path@, spec_marker()),
            None => false,
        },
        _ => false,
    }
}

/// Liveness of a process id: alive means the id is present, the process
/// table knows it, and its executable carries the identity marker. A failed
/// query counts as not alive (fail safe).
pub open spec fn spec_alive(pid: Option<usize>, probe: ProcessProbe) -> bool {
    pid is Some && spec_marker_present(probe)
}

/// Decide liveness from a process id and what the process table said of it.
pub fn verdict(pid: Option<usize>, probe: &ProcessProbe) -> (r: bool)
    ensures
        r == spec_alive(pid, *probe),
{
    if pid.is_none() {
        return false;
    }
    match probe {
        ProcessProbe::Found { exe } => match exe {
            Some(path) => contains_substring(path.as_str(), "java"),
            None => false,
        },
        _ => false,
    }
}

/// A process lacking the identity marker is never reported alive, whatever
/// its numeric id: a recycled pid of an unrelated process stays dead to the
/// oracle.
pub proof fn law_marker_required(pid: Option<usize>, probe: ProcessProbe)
    requires
        !spec_marker_present(probe),
    ensures
        !spec_alive(pid, probe),
{
}

/// Relies on sysinfo: `System::new_all` loads the process table,
/// `System::process` looks a pid up in it, and `Process::exe` gives the
/// resolved executable path. What comes back depends on the machine's state
/// at the moment of the call, so nothing is promised of the outcome.
#[verifier::external_body]
fn probe_process(pid: usize) -> (probe: ProcessProbe) {
    let sys = sysinfo::System::new_all();
    match sys.process(sysinfo::Pid::from(pid)) {
        None => ProcessProbe::NotFound,
        Some(p) => ProcessProbe::Found {
            exe: p.exe().and_then(|e| e.to_str()).map(|s| s.to_string()),
        },
    }
}

/// Relies on sysinfo: `Process::kill_with(Signal::Kill)` sends the forceful
/// termination signal. Returns whether a process with that id was found and
/// the platform supports the signal; delivery is up to the OS.
#[verifier::external_body]
fn kill_process(pid: usize) -> (r: bool) {
    let sys = sysinfo::System::new_all();
    match sys.process(sysinfo::Pid::from(pid)) {
        None => false,
        Some(p) => p.kill_with(sysinfo::Signal::Kill).unwrap_or(false),
    }
}

/// Whether `pid` names a live process that this tool launched. An absent
/// pid, a missing process, an unreadable or markerless executable, and a
/// failed query all report not running.
pub fn status(pid: Option<usize>) -> (r: bool)
    ensures
        pid is None ==> !r,
        r ==> pid is Some,
{
    match pid {
        None => false,
        Some(p) => {
            let probe = probe_process(p);
            verdict(Some(p), &probe)
        },
    }
}

/// Split an uptime in seconds into whole hours, minutes of the last partial
/// hour, and seconds of the last partial minute.
pub fn uptime_parts(uptime: u64) -> (r: (u64, u64, u64))
    ensures
        r.0 == uptime / 3600,
        r.1 == (uptime % 3600) / 60,
        r.2 == uptime % 60,
        r.1 < 60,
        r.2 < 60,
{
    (uptime / 3600, (uptime % 3600) / 60, uptime % 60)
}

/// Send the forceful termination signal to the managed process, bypassing
/// its channels. With no pid recorded there is nothing to kill.
pub fn force_kill(pid: Option<usize>) -> (r: bool)
    ensures
        pid is None ==> !r,
{
    match pid {
        None => false,
        Some(p) => kill_process(p),
    }
}

/// The name of one named channel of a session: the identifier with the
/// channel's suffix.
pub fn pipe_name(identifier: &str, suffix: &str) -> (r: String)
    ensures
        r@ == identifier@ + suffix@,
{
    let mut name = identifier.to_owned();
    name.append(suffix);
    name
}

/// The three channel names of a session, derived from the identifier alone,
/// so that independent invocations agree on them.
pub fn pipe_names(identifier: &str) -> (r: (String, String, String))
    ensures
        r.0@ == identifier@ + "_stdin"@,
        r.1@ == identifier@ + "_stdout"@,
        r.2@ == identifier@ + "_stderr"@,
{
    (
        pipe_name(identifier, "_stdin"),
        pipe_name(identifier, "_stdout"),
        pipe_name(identifier, "_stderr"),
    )
}

#[verifier::external_type_specification]
#[verifier::external_body]
pub struct ExPipe(ipipe::Pipe);

#[verifier::external_type_specification]
#[verifier::external_body]
pub struct ExPipeError(ipipe::Error);

/// Relies on ipipe's `Pipe::with_name`: opens the named pipe of that name in
/// the well-known location, creating it first if nothing is there, and
/// failing if the path exists and is not a pipe.
#[verifier::external_body]
fn open_pipe(name: &str) -> (r: Result<ipipe::Pipe, ipipe::Error>) {
    ipipe::Pipe::with_name(name)
}

/// Open the three named channels of session `identifier`: stdin, stdout and
/// stderr, in that order. Any failure to create or open a channel is
/// reported as [`SessionError::ChannelUnavailable`].
pub fn get_pipes(identifier: &str) -> (r: Result<[ipipe::Pipe; 3], SessionError>)
    ensures
        r matches Err(e) ==> e == SessionError::ChannelUnavailable,
{
    let (stdin_name, stdout_name, stderr_name) = pipe_names(identifier);
    let stdin = match open_pipe(stdin_name.as_str()) {
        Ok(p) => p,
        Err(_) => {
            return Err(SessionError::ChannelUnavailable);
        },
    };
    let stdout = match open_pipe(stdout_name.as_str()) {
        Ok(p) => p,
        Err(_) => {
            return Err(SessionError::ChannelUnavailable);
        },
    };
    let stderr = match open_pipe(stderr_name.as_str()) {
        Ok(p) => p,
        Err(_) => {
            return Err(SessionError::ChannelUnavailable);
        },
    };
    Ok([stdin, stdout, stderr])
}

} // verus!
