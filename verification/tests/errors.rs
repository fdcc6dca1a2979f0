use pty_session::errors::SessionError;

#[test]
fn error_descriptions_name_each_failure() {
    assert_eq!(
        SessionError::SpawnFailed.describe(),
        "failed to allocate a pty or spawn the shell"
    );
    assert_eq!(SessionError::NotInitialized.describe(), "PTY not initialized");
    assert_eq!(SessionError::IoFailure.describe(), "I/O with the pty failed");
    assert_eq!(
        SessionError::AlreadyActive.describe(),
        "a session is already active"
    );
}
