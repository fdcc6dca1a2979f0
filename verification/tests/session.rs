use pty_session::errors::SessionError;
use pty_session::pty::PtyReader;
use pty_session::pump::{poll_output, ReadEvent};
use pty_session::session::SessionManager;

/// Polls the output stream until a chunk containing `needle` arrives;
/// false if the stream ends first.
fn poll_until_contains(reader: &mut PtyReader, needle: &str) -> bool {
    let mut rounds = 0usize;
    loop {
        match poll_output(reader) {
            ReadEvent::Data(chunk) => {
                if String::from_utf8_lossy(&chunk).contains(needle) {
                    return true;
                }
            }
            ReadEvent::Eof | ReadEvent::Failed => return false,
        }
        rounds += 1;
        if rounds > 10000 {
            return false;
        }
    }
}

/// Polls the output stream until it terminates (end of stream or read error).
fn poll_until_closed(reader: &mut PtyReader) -> bool {
    let mut rounds = 0usize;
    loop {
        match poll_output(reader) {
            ReadEvent::Data(_) => {}
            ReadEvent::Eof | ReadEvent::Failed => return true,
        }
        rounds += 1;
        if rounds > 10000 {
            return false;
        }
    }
}

#[test]
fn write_before_create_fails_not_initialized() {
    let mut manager = SessionManager::new();
    assert_eq!(
        manager.write_to_pty(b"echo hello\n"),
        Err(SessionError::NotInitialized)
    );
}

#[test]
fn resize_before_create_fails_not_initialized() {
    let mut manager = SessionManager::new();
    assert_eq!(manager.resize_pty(40, 100), Err(SessionError::NotInitialized));
}

#[test]
fn fresh_manager_is_absent() {
    let manager = SessionManager::new();
    assert!(!manager.is_active());
    assert_eq!(manager.geometry(), None);
}

#[test]
fn create_starts_active_with_default_geometry() {
    let mut manager = SessionManager::new();
    let reader = manager.create_pty();
    assert!(reader.is_ok());
    assert!(manager.is_active());
    assert_eq!(manager.geometry(), Some((24, 80)));
}

#[test]
fn create_while_active_is_rejected() {
    let mut manager = SessionManager::new();
    assert!(manager.create_pty().is_ok());
    match manager.create_pty() {
        Err(e) => assert_eq!(e, SessionError::AlreadyActive),
        Ok(_) => panic!("a second session must not replace the live one"),
    }
    assert!(manager.is_active());
    assert_eq!(manager.geometry(), Some((24, 80)));
}

#[test]
fn echo_round_trip_produces_hello() {
    let mut manager = SessionManager::new();
    let mut reader = manager.create_pty().expect("session should start");
    assert_eq!(manager.write_to_pty(b"echo hello\n"), Ok(()));
    assert!(poll_until_contains(&mut reader, "hello"));
}

#[test]
fn resize_twice_is_idempotent() {
    let mut manager = SessionManager::new();
    let _reader = manager.create_pty().expect("session should start");
    assert_eq!(manager.resize_pty(40, 100), Ok(()));
    assert_eq!(manager.geometry(), Some((40, 100)));
    assert_eq!(manager.resize_pty(40, 100), Ok(()));
    assert_eq!(manager.geometry(), Some((40, 100)));
}

#[test]
fn shell_exit_closes_stream_and_teardown_gates_input() {
    let mut manager = SessionManager::new();
    let mut reader = manager.create_pty().expect("session should start");
    assert_eq!(manager.write_to_pty(b"exit\n"), Ok(()));
    assert!(poll_until_closed(&mut reader));
    manager.clear_session();
    assert!(!manager.is_active());
    assert_eq!(
        manager.write_to_pty(b"echo hello\n"),
        Err(SessionError::NotInitialized)
    );
    assert_eq!(manager.resize_pty(40, 100), Err(SessionError::NotInitialized));
}

#[test]
fn write_after_shell_exit_is_not_gated() {
    let mut manager = SessionManager::new();
    let mut reader = manager.create_pty().expect("session should start");
    assert_eq!(manager.write_to_pty(b"exit\n"), Ok(()));
    assert!(poll_until_closed(&mut reader));
    // The pump has seen the stream close but nothing has cleared the slot
    // yet: the session is still formally live, so the write reaches the pty
    // (succeeding into the device buffer, or failing there as IoFailure),
    // and is never rejected as uninitialized.
    assert!(manager.is_active());
    let outcome = manager.write_to_pty(b"echo hello\n");
    assert!(matches!(outcome, Ok(()) | Err(SessionError::IoFailure)));
}

#[test]
fn full_session_scenario() {
    let mut manager = SessionManager::new();
    let mut reader = manager.create_pty().expect("session should start");
    assert!(manager.is_active());
    assert_eq!(manager.write_to_pty(b"echo 42\n"), Ok(()));
    assert!(poll_until_contains(&mut reader, "42"));
    assert_eq!(manager.resize_pty(10, 10), Ok(()));
    assert_eq!(manager.geometry(), Some((10, 10)));
    assert_eq!(manager.write_to_pty(b"exit\n"), Ok(()));
    assert!(poll_until_closed(&mut reader));
    manager.clear_session();
    assert!(!manager.is_active());
    assert_eq!(manager.resize_pty(10, 10), Err(SessionError::NotInitialized));
}
