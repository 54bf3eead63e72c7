use crate::config::Config;
use crate::error::SessionError;
use crate::text::{contains_substring, str_contains};
use rand::RngExt;
use vstd::prelude::*;

verus! {

/// How the child's stdio is owned.
#[derive(Clone, Copy, Debug, PartialEq, Eq, Structural)]
pub enum LaunchMode {
    /// The child's lifetime is bound to this invocation, which owns its
    /// stdio directly.
    Foreground,
    /// The child outlives this invocation; its stdio is exposed through a
    /// fresh channel set and its identity is persisted to Session State.
    Detached,
}

/// Whether a launch may proceed, and in which mode.
///
/// A live session forbids any launch. Detached mode further needs OS-level
/// detachment support: where the platform lacks it, the launch is refused
/// explicitly rather than degraded to foreground mode.
pub open spec fn spec_plan_launch(
    alive: bool,
    detached: bool,
    platform_supports_detach: bool,
) -> Result<LaunchMode, SessionError> {
    if alive {
        Err(SessionError::AlreadyRunning)
    } else if !detached {
        Ok(LaunchMode::Foreground)
    } else if platform_supports_detach {
        Ok(LaunchMode::Detached)
    } else {
        Err(SessionError::PlatformUnsupported)
    }
}

/// Decide whether a launch may proceed, from the liveness oracle's word on
/// the current Session State, the requested mode, and the platform's
/// detachment support.
pub fn plan_launch(alive: bool, detached: bool, platform_supports_detach: bool) -> (r: Result<
    LaunchMode,
    SessionError,
>)
    ensures
        r == spec_plan_launch(alive, detached, platform_supports_detach),
{
    if alive {
        Err(SessionError::AlreadyRunning)
    } else if !detached {
        Ok(LaunchMode::Foreground)
    } else if platform_supports_detach {
        Ok(LaunchMode::Detached)
    } else {
        Err(SessionError::PlatformUnsupported)
    }
}

/// The Session State after a launch: a successful detached launch records
/// the child's identity, while a foreground launch and every refusal leave
/// the record untouched.
pub open spec fn spec_launch_result(
    config: Config,
    pid: usize,
    identifier: String,
    outcome: Result<LaunchMode, SessionError>,
) -> Config {
    if outcome == Ok::<LaunchMode, SessionError>(LaunchMode::Detached) {
        config.spec_record_launch(pid, identifier)
    } else {
        config
    }
}

/// For every launch — foreground, detached, or refused — the Session State
/// afterward has the process id and the identifier both set or both empty,
/// never one without the other.
pub proof fn law_launch_keeps_session_consistent(
    config: Config,
    pid: usize,
    identifier: String,
    alive: bool,
    detached: bool,
    platform_supports_detach: bool,
)
    requires
        config.session_consistent(),
    ensures
        spec_launch_result(
            config,
            pid,
            identifier,
            spec_plan_launch(alive, detached, platform_supports_detach),
        ).session_consistent(),
{
}

/// Whether the stored agreement text records acceptance.
pub fn eula_accepted(contents: &str) -> (r: bool)
    ensures
        r == str_contains(contents@, "eula=true"@),
{
    contains_substring(contents, "eula=true")
}

/// A character an identifier may be made of: an ASCII letter or digit.
pub open spec fn is_identifier_char(c: char) -> bool {
    ('0' <= c && c <= '9') || ('a' <= c && c <= 'z') || ('A' <= c && c <= 'Z')
}

/// Relies on rand: `Alphanumeric` samples uniformly from the ASCII letters
/// and digits, so taking seven samples gives seven such characters. Which
/// ones is up to the generator, so nothing more is promised.
#[verifier::external_body]
fn sample_identifier() -> (r: String)
    ensures
        r@.len() == 7,
        forall|i: int| 0 <= i < 7 ==> is_identifier_char(#[trigger] r@[i]),
{
    rand::rng().sample_iter(&rand::distr::Alphanumeric).take(7).map(char::from).collect()
}

/// A fresh, collision-resistant session identifier: seven characters drawn
/// at random from the ASCII letters and digits.
pub fn fresh_identifier() -> (r: String)
    ensures
        r@.len() == 7,
        forall|i: int| 0 <= i < 7 ==> is_identifier_char(#[trigger] r@[i]),
{
    sample_identifier()
}

} // verus!
