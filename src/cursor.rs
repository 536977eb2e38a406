//! Capturing and releasing the mouse cursor with the escape key.
use vstd::prelude::*;

verus! {

/// How the window holds the mouse cursor.
#[derive(Clone, Copy, Debug, PartialEq, Eq, Structural)]
pub enum GrabMode {
    /// The cursor moves freely and may leave the window.
    Free,
    /// The cursor is kept inside the window.
    Confined,
    /// The cursor is pinned in place; only its motion is reported.
    Locked,
}

/// The cursor's grab mode together with whether it is drawn.
#[derive(Clone, Copy, Debug, PartialEq, Eq, Structural)]
pub struct CursorState {
    pub grab: GrabMode,
    pub visible: bool,
}

/// The state after one press of escape: a free cursor is locked and hidden;
/// any captured one (confined or locked) is freed and shown again.
pub open spec fn escape_toggled(s: CursorState) -> CursorState {
    if s.grab == GrabMode::Free {
        CursorState { grab: GrabMode::Locked, visible: false }
    } else {
        CursorState { grab: GrabMode::Free, visible: true }
    }
}

/// Next cursor state for one frame, given whether escape was pressed during it.
pub fn toggle_cursor_lock(state: CursorState, escape_just_pressed: bool) -> (r: CursorState)
    ensures
        escape_just_pressed ==> r == escape_toggled(state),
        !escape_just_pressed ==> r == state,
{
    if !escape_just_pressed {
        return state;
    }
    match state.grab {
        GrabMode::Free => CursorState { grab: GrabMode::Locked, visible: false },
        _ => CursorState { grab: GrabMode::Free, visible: true },
    }
}

} // verus!
