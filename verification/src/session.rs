//! The session controller and the input/resize gateway: a single session
//! slot holding one shell-in-a-pty, with creation, teardown, input writing,
//! and geometry changes, all gated on the slot being live.

use vstd::prelude::*;

use crate::errors::SessionError;
use crate::model::{
    created_state, gate_open, initial_state, resized, torn_down, SessionState, DEFAULT_COLS,
    DEFAULT_ROWS,
};
use crate::pty::{
    clone_reader, flush_writer, into_master, open_pty, resize_master, spawn_shell, take_writer,
    write_all_bytes, ChildHandle, PtyMaster, PtyReader, PtyWriter,
};

verus! {

/// The handles and geometry of one live session. The master end stays open
/// for resizing, the writer carries input to the shell, and the child handle
/// keeps hold of the spawned shell process; the read handle is owned
/// exclusively by the pump and is not stored here.
struct ActiveSession {
    master: PtyMaster,
    #[allow(dead_code)]
    child: ChildHandle,
    writer: PtyWriter,
    rows: u16,
    cols: u16,
}

/// The single session slot: at most one shell-in-a-pty is live at a time,
/// and input and resize are valid exactly while it is.
pub struct SessionManager {
    slot: Option<ActiveSession>,
}

impl SessionManager {
    /// The abstract state of the slot: `Absent`, or `Active` with the
    /// geometry last applied to the pty.
    pub closed spec fn state(self) -> SessionState {
        match self.slot {
            Option::None => SessionState::Absent,
            Option::Some(live) => SessionState::Active { rows: live.rows, cols: live.cols },
        }
    }

    /// A manager starts with the slot empty: no session is live.
    pub fn new() -> (manager: SessionManager)
        ensures
            manager.state() == initial_state(),
    {
        SessionManager { slot: None }
    }

    /// Whether a session is live: exactly the states in which input and
    /// resize are permitted.
    pub fn is_active(&self) -> (live: bool)
        ensures
            live == gate_open(self.state()),
    {
        self.slot.is_some()
    }

    /// The geometry of the live session, or `None` while the slot is empty.
    pub fn geometry(&self) -> (geom: Option<(u16, u16)>)
        ensures
            self.state() matches SessionState::Active { rows, cols } ==> geom == Some(
                (rows, cols),
            ),
            self.state() is Absent ==> geom is None,
    {
        match &self.slot {
            Some(live) => Some((live.rows, live.cols)),
            None => None,
        }
    }

    /// Creates the session: allocates a pty with the default geometry, spawns
    /// the shell into its slave end, installs the master and writer handles in
    /// the slot, and hands the caller the read handle for the output pump.
    ///
    /// A request against a live slot is rejected with `AlreadyActive` and
    /// changes nothing: the single-slot invariant forbids overwriting (and so
    /// leaking) a running shell. Any failure while the slot was empty leaves
    /// it empty and surfaces as `SpawnFailed`: no partial state is retained.
    pub fn create_pty(&mut self) -> (r: Result<PtyReader, SessionError>)
        ensures
            gate_open(old(self).state()) ==> final(self).state() == old(self).state() && (
            r matches Err(e) && e == SessionError::AlreadyActive),
            !gate_open(old(self).state()) && r is Ok ==> final(self).state() == created_state(),
            !gate_open(old(self).state()) && r is Err ==> final(self).state() is Absent && (
            r matches Err(e) && e == SessionError::SpawnFailed),
    {
        if self.slot.is_some() {
            return Err(SessionError::AlreadyActive);
        }
        let pair = match open_pty(DEFAULT_ROWS, DEFAULT_COLS) {
            Ok(pair) => pair,
            Err(_) => {
                return Err(SessionError::SpawnFailed);
            },
        };
        let child = match spawn_shell(&pair) {
            Ok(child) => child,
            Err(_) => {
                return Err(SessionError::SpawnFailed);
            },
        };
        let reader = match clone_reader(&pair) {
            Ok(reader) => reader,
            Err(_) => {
                return Err(SessionError::SpawnFailed);
            },
        };
        let writer = match take_writer(&pair) {
            Ok(writer) => writer,
            Err(_) => {
                return Err(SessionError::SpawnFailed);
            },
        };
        let master = into_master(pair);
        self.slot = Some(
            ActiveSession { master, child, writer, rows: DEFAULT_ROWS, cols: DEFAULT_COLS },
        );
        Ok(reader)
    }

    /// Writes the payload as shell input, then flushes so the bytes are
    /// delivered rather than buffered. Fails with `NotInitialized` exactly
    /// when no session is live; a failed write or flush surfaces as
    /// `IoFailure`. The session state is unchanged in every case: only the
    /// pump's teardown empties the slot.
    pub fn write_to_pty(&mut self, data: &[u8]) -> (r: Result<(), SessionError>)
        ensures
            final(self).state() == old(self).state(),
            (r matches Err(e) && e == SessionError::NotInitialized) <==> !gate_open(
                old(self).state(),
            ),
            gate_open(old(self).state()) ==> r is Ok || (r matches Err(e) && e
                == SessionError::IoFailure),
    {
        match &mut self.slot {
            None => Err(SessionError::NotInitialized),
            Some(live) => {
                match write_all_bytes(&mut live.writer, data) {
                    Ok(()) => {},
                    Err(_) => {
                        return Err(SessionError::IoFailure);
                    },
                }
                match flush_writer(&mut live.writer) {
                    Ok(()) => Ok(()),
                    Err(_) => Err(SessionError::IoFailure),
                }
            },
        }
    }

    /// Applies a new geometry to the live pty, signalling the shell of the
    /// window-size change, and records it. Fails with `NotInitialized`
    /// exactly when no session is live; a failed resize surfaces as
    /// `IoFailure` and leaves the recorded geometry unchanged. Resizing is
    /// idempotent: on success the state depends only on the requested
    /// geometry, not on how often it is requested.
    pub fn resize_pty(&mut self, rows: u16, cols: u16) -> (r: Result<(), SessionError>)
        requires
            rows >= 1,
            cols >= 1,
        ensures
            (r matches Err(e) && e == SessionError::NotInitialized) <==> !gate_open(
                old(self).state(),
            ),
            r is Ok ==> final(self).state() == resized(old(self).state(), rows, cols),
            r is Err ==> final(self).state() == old(self).state(),
            gate_open(old(self).state()) ==> r is Ok || (r matches Err(e) && e
                == SessionError::IoFailure),
    {
        match &mut self.slot {
            None => Err(SessionError::NotInitialized),
            Some(live) => {
                match resize_master(&live.master, rows, cols) {
                    Ok(()) => {
                        live.rows = rows;
                        live.cols = cols;
                        Ok(())
                    },
                    Err(_) => Err(SessionError::IoFailure),
                }
            },
        }
    }

    /// Empties the slot, dropping the pty and writer handles. The pump calls
    /// this when the output stream ends or errors, so that every later gated
    /// operation observes an absent session rather than stale handles.
    pub fn clear_session(&mut self)
        ensures
            final(self).state() == torn_down(old(self).state()),
            final(self).state() is Absent,
    {
        self.slot = None;
    }
}

} // verus!
