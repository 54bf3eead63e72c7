use vstd::prelude::*;

verus! {

/// The stop command assumed where a configuration record names none.
pub fn default_stop_command() -> (r: String)
    ensures
        r@ == "stop"@,
{
    "stop".to_owned()
}

/// The configuration record of one working directory.
///
/// The `pid` / `identifier` pair is the Session State: the identity of the
/// currently managed process and of its channel set. The invariant
/// [`Config::session_consistent`] says the two are set and cleared together.
pub struct Config {
    pub jar_file: String,
    pub stop_command: String,
    pub profile_name: String,

    pub modpack_slug: Option<String>,
    pub modpack_version: Option<String>,

    pub ram_mb: u32,
    pub java_version: u8,

    pub extra_flags: Vec<String>,
    pub extra_args: Vec<String>,

    pub pid: Option<usize>,
    pub identifier: Option<String>,
}

impl Config {
    /// Session State is never half-written: the process id and the session
    /// identifier are both present or both absent.
    pub open spec fn session_consistent(&self) -> bool {
        self.pid is Some <==> self.identifier is Some
    }

    /// Whether a session is recorded (live or stale) for this directory.
    pub fn has_session(&self) -> (r: bool)
        ensures
            r == (self.pid is Some),
    {
        self.pid.is_some()
    }

    /// The record after a detached launch of process `pid` under session
    /// `identifier`.
    pub open spec fn spec_record_launch(self, pid: usize, identifier: String) -> Config {
        Config {
            pid: Some(pid),
            identifier: Some(identifier),
            ..self
        }
    }

    /// The record once death of the managed process is confirmed.
    pub open spec fn spec_clear_session(self) -> Config {
        Config { pid: None, identifier: None, ..self }
    }

    /// Persist the identity of a freshly launched detached child.
    pub fn record_launch(&mut self, pid: usize, identifier: String)
        ensures
            *final(self) == old(self).spec_record_launch(pid, identifier),
            final(self).session_consistent(),
    {
        self.pid = Some(pid);
        self.identifier = Some(identifier);
    }

    /// Clear the Session State once the managed process is confirmed dead.
    pub fn clear_session(&mut self)
        ensures
            *final(self) == old(self).spec_clear_session(),
            final(self).session_consistent(),
            final(self).pid is None,
            final(self).identifier is None,
    {
        self.pid = None;
        self.identifier = None;
    }
}

impl Default for Config {
    /// A fresh configuration record: no session recorded.
    fn default() -> (c: Config)
        ensures
            c.jar_file@ == "server.jar"@,
            c.stop_command@ == "stop"@,
            c.profile_name@ == "default"@,
            c.modpack_slug is None,
            c.modpack_version is None,
            c.ram_mb == 2048,
            c.java_version == 21,
            c.extra_flags@ == Seq::<String>::empty(),
            c.extra_args@ == Seq::<String>::empty(),
            c.pid is None,
            c.identifier is None,
            c.session_consistent(),
    {
        Config {
            jar_file: "server.jar".to_owned(),
            stop_command: "stop".to_owned(),
            profile_name: "default".to_owned(),
            modpack_slug: None,
            modpack_version: None,
            ram_mb: 2048,
            java_version: 21,
            extra_flags: Vec::new(),
            extra_args: Vec::new(),
            pid: None,
            identifier: None,
        }
    }
}

/// Session State is only ever written whole: a launch sets both fields and a
/// clear empties both, so consistency holds after either write, whatever the
/// record held before. Clearing twice is the same as clearing once.
pub proof fn law_session_writes_consistent(c: Config, pid: usize, identifier: String)
    ensures
        c.spec_record_launch(pid, identifier).session_consistent(),
        c.spec_clear_session().session_consistent(),
        c.spec_clear_session().spec_clear_session() == c.spec_clear_session(),
{
}

} // verus!
