use mcvcli::attach::forward_chunk;
use mcvcli::detached::{get_pipes, pipe_name, pipe_names};
use mcvcli::error::SessionError;

#[test]
fn pipe_names_derived_from_identifier() {
    let (stdin, stdout, stderr) = pipe_names("ab12cde");
    assert_eq!(stdin, "ab12cde_stdin");
    assert_eq!(stdout, "ab12cde_stdout");
    assert_eq!(stderr, "ab12cde_stderr");
}

#[test]
fn pipe_name_appends_suffix() {
    assert_eq!(pipe_name("x9y8z7w", "_stdout"), "x9y8z7w_stdout");
}

#[test]
fn independent_invocations_agree_on_names() {
    // Channel names are a pure function of the identifier, so a later
    // invocation reconstructs the same set.
    assert_eq!(pipe_names("q1w2e3r"), pipe_names("q1w2e3r"));
}

#[test]
fn get_pipes_opens_three_channels() {
    let pipes = get_pipes("mcvclichanneltest");
    assert!(pipes.is_ok());
}

#[test]
fn get_pipes_reports_unavailable_channels() {
    // A channel that cannot be created (its parent directory is missing)
    // is an explicit failure, not a hang or a silent fallback.
    let pipes = get_pipes("mcvcli_missing_dir/pipe");
    assert_eq!(pipes.err(), Some(SessionError::ChannelUnavailable));
}

#[test]
fn forwarded_bytes_arrive_unchanged() {
    // What the attacher hands to the channel from one local read is exactly
    // the bytes that were read.
    let mut buffer = [0u8; 16];
    let message = b"say hello\n";
    buffer[..message.len()].copy_from_slice(message);
    let forwarded = forward_chunk(&buffer, message.len());
    assert_eq!(forwarded, message.to_vec());
}

#[test]
fn forward_chunk_empty_read() {
    let buffer = [7u8; 4];
    assert!(forward_chunk(&buffer, 0).is_empty());
}
