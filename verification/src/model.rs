use vstd::prelude::*;

verus! {

/// Rows in a freshly created session's terminal grid.
pub const DEFAULT_ROWS: u16 = 24;

/// Columns in a freshly created session's terminal grid.
pub const DEFAULT_COLS: u16 = 80;

/// The abstract state of the single session slot: either no session is live,
/// or one shell-in-a-pty is live with the given terminal geometry.
pub enum SessionState {
    Absent,
    Active { rows: u16, cols: u16 },
}

/// Input and resize are permitted exactly while a session is live.
pub open spec fn gate_open(s: SessionState) -> bool {
    s is Active
}

/// Before any session is created the slot is empty.
pub open spec fn initial_state() -> SessionState {
    SessionState::Absent
}

/// A successful creation installs a live session with the default geometry.
pub open spec fn created_state() -> SessionState {
    SessionState::Active { rows: DEFAULT_ROWS, cols: DEFAULT_COLS }
}

/// Tearing the session down empties the slot, whatever it held.
pub open spec fn torn_down(s: SessionState) -> SessionState {
    SessionState::Absent
}

/// A successful resize replaces the geometry of a live session and does
/// nothing to an empty slot.
pub open spec fn resized(s: SessionState, rows: u16, cols: u16) -> SessionState {
    match s {
        SessionState::Active { .. } => SessionState::Active { rows, cols },
        SessionState::Absent => SessionState::Absent,
    }
}

/// Input and resize are rejected both before any session has been created
/// and after teardown has emptied the slot: neither state permits them.
pub proof fn lemma_state_gating(s: SessionState)
    ensures
        !gate_open(initial_state()),
        !gate_open(torn_down(s)),
{
}

/// Cleanup: teardown always leaves the slot empty, so once the pump has torn
/// the session down, every later gated operation observes an absent session.
pub proof fn lemma_teardown_closes_gate(s: SessionState)
    ensures
        torn_down(s) is Absent,
        !gate_open(torn_down(s)),
{
}

/// Resize idempotence: repeating a successful resize with the same geometry
/// changes nothing, and resizing a live session to the geometry it already
/// has is a no-op on the observable state.
pub proof fn lemma_resize_idempotent(s: SessionState, rows: u16, cols: u16)
    ensures
        resized(resized(s, rows, cols), rows, cols) == resized(s, rows, cols),
        s == (SessionState::Active { rows, cols }) ==> resized(s, rows, cols) == s,
{
}

} // verus!
