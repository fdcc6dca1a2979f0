use vstd::prelude::*;

verus! {

/// The ways a session operation can fail.
#[derive(Clone, Copy, Debug, PartialEq, Eq, Structural)]
pub enum SessionError {
    /// Allocating the pty or launching the shell failed; no session state is
    /// retained.
    SpawnFailed,
    /// `write_to_pty` or `resize_pty` was called while no session is live.
    NotInitialized,
    /// A write, flush, or resize against the live pty failed; the session
    /// itself stays live.
    IoFailure,
    /// `create_pty` was called while a session is already live. The single
    /// session slot rejects the request rather than leaking the running shell.
    AlreadyActive,
}

impl SessionError {
    /// A human-readable description, for the host application's boundary.
    pub fn describe(&self) -> (msg: &'static str)
        ensures
            self is SpawnFailed ==> msg@ == "failed to allocate a pty or spawn the shell"@,
            self is NotInitialized ==> msg@ == "PTY not initialized"@,
            self is IoFailure ==> msg@ == "I/O with the pty failed"@,
            self is AlreadyActive ==> msg@ == "a session is already active"@,
    {
        match self {
            SessionError::SpawnFailed => "failed to allocate a pty or spawn the shell",
            SessionError::NotInitialized => "PTY not initialized",
            SessionError::IoFailure => "I/O with the pty failed",
            SessionError::AlreadyActive => "a session is already active",
        }
    }
}

} // verus!
