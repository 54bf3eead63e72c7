use mcvcli::attach::attach_precheck;
use mcvcli::config::{default_stop_command, Config};
use mcvcli::detached::status;
use mcvcli::error::{exit_code, SessionError};

fn sample_config() -> Config {
    let mut config = Config::default();
    config.profile_name = "survival".to_string();
    config
}

#[test]
fn default_config_values() {
    let config = Config::default();
    assert_eq!(config.jar_file, "server.jar");
    assert_eq!(config.stop_command, "stop");
    assert_eq!(config.profile_name, "default");
    assert!(config.modpack_slug.is_none());
    assert!(config.modpack_version.is_none());
    assert_eq!(config.ram_mb, 2048);
    assert_eq!(config.java_version, 21);
    assert!(config.extra_flags.is_empty());
    assert!(config.extra_args.is_empty());
    assert!(config.pid.is_none());
    assert!(config.identifier.is_none());
}

#[test]
fn default_stop_command_value() {
    assert_eq!(default_stop_command(), "stop");
}

#[test]
fn launch_sets_both_session_fields() {
    let mut config = sample_config();
    config.record_launch(4242, "ab12cde".to_string());
    assert_eq!(config.pid, Some(4242));
    assert_eq!(config.identifier, Some("ab12cde".to_string()));
    assert_eq!(config.profile_name, "survival");
}

#[test]
fn clear_empties_both_session_fields() {
    let mut config = sample_config();
    config.record_launch(4242, "ab12cde".to_string());
    config.clear_session();
    assert!(config.pid.is_none());
    assert!(config.identifier.is_none());
}

#[test]
fn clear_twice_is_clear_once() {
    let mut config = sample_config();
    config.record_launch(7, "zzzzzzz".to_string());
    config.clear_session();
    config.clear_session();
    assert!(config.pid.is_none());
    assert!(config.identifier.is_none());
}

#[test]
fn stop_then_attach_fails_not_running() {
    let mut config = sample_config();
    config.record_launch(4242, "ab12cde".to_string());
    config.clear_session();
    let alive = status(config.pid);
    assert!(!alive);
    let attach = attach_precheck(&config, alive);
    assert_eq!(attach, Err(SessionError::NotRunning));
}

#[test]
fn attach_yields_session_identifier() {
    let mut config = sample_config();
    config.record_launch(4242, "ab12cde".to_string());
    let attach = attach_precheck(&config, true);
    assert_eq!(attach, Ok("ab12cde".to_string()));
}

#[test]
fn attach_without_session_fails() {
    let config = sample_config();
    let attach = attach_precheck(&config, false);
    assert_eq!(attach, Err(SessionError::NotRunning));
}

#[test]
fn exit_codes() {
    assert_eq!(exit_code(&Ok::<u32, SessionError>(5)), 0);
    assert_eq!(exit_code(&Err::<u32, SessionError>(SessionError::NotRunning)), 1);
    assert_eq!(exit_code(&Err::<u32, SessionError>(SessionError::AlreadyRunning)), 1);
}

#[test]
fn error_messages() {
    assert_eq!(SessionError::NotRunning.message(), "server is not running");
    assert_eq!(SessionError::AlreadyRunning.message(), "server is already running");
    assert_eq!(SessionError::SpawnFailure.message(), "failed to spawn the server process");
    assert_eq!(SessionError::ChannelUnavailable.message(), "failed to open the server channels");
    assert_eq!(SessionError::LivenessAmbiguous.message(), "could not inspect the server process");
    assert_eq!(
        SessionError::PlatformUnsupported.message(),
        "detached mode is not supported on this platform"
    );
}
