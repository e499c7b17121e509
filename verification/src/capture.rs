//! The cursor-capture state machine.
//!
//! While the pointer is captured it is hidden and locked to the viewport, and
//! its motion and the movement keys steer the controller. While it is free,
//! both are ignored. The only transition is the explicit toggle.

use vstd::prelude::*;

verus! {

/// Whether pointer input is captured.
#[derive(Clone, Copy, Debug, PartialEq, Eq, Structural)]
pub enum CursorCaptureState {
    /// The pointer is hidden and locked; look and move input is applied.
    Captured,
    /// The pointer is shown and movable; look and move input is ignored.
    Free,
}

impl CursorCaptureState {
    /// The other state.
    pub open spec fn toggled(self) -> CursorCaptureState {
        match self {
            CursorCaptureState::Captured => CursorCaptureState::Free,
            CursorCaptureState::Free => CursorCaptureState::Captured,
        }
    }

    /// The state after a tick whose toggle signal was `toggle`.
    pub open spec fn after_signal(self, toggle: bool) -> CursorCaptureState {
        if toggle {
            self.toggled()
        } else {
            self
        }
    }

    /// The state that matches a window whose pointer lock is `locked`.
    pub fn from_cursor_locked(locked: bool) -> (state: CursorCaptureState)
        ensures
            state == (if locked {
                CursorCaptureState::Captured
            } else {
                CursorCaptureState::Free
            }),
    {
        if locked {
            CursorCaptureState::Captured
        } else {
            CursorCaptureState::Free
        }
    }

    /// Whether look and move input is applied in this state.
    pub fn is_captured(self) -> (captured: bool)
        ensures
            captured == (self == CursorCaptureState::Captured),
    {
        match self {
            CursorCaptureState::Captured => true,
            CursorCaptureState::Free => false,
        }
    }

    /// Whether the window has to lock the pointer in this state.
    pub fn cursor_locked(self) -> (locked: bool)
        ensures
            locked == (self == CursorCaptureState::Captured),
    {
        self.is_captured()
    }

    /// Whether the window has to show the pointer in this state.
    pub fn cursor_visible(self) -> (visible: bool)
        ensures
            visible == (self == CursorCaptureState::Free),
    {
        !self.is_captured()
    }

    /// Takes one tick's toggle signal: the state flips if the signal is set and
    /// stays otherwise.
    pub fn on_signal(self, toggle: bool) -> (next: CursorCaptureState)
        ensures
            next == self.after_signal(toggle),
    {
        if toggle {
            match self {
                CursorCaptureState::Captured => CursorCaptureState::Free,
                CursorCaptureState::Free => CursorCaptureState::Captured,
            }
        } else {
            self
        }
    }
}

/// The capture made when a session starts: the controller begins captured.
pub fn initial_grab_cursor() -> (state: CursorCaptureState)
    ensures
        state == CursorCaptureState::Captured,
{
    CursorCaptureState::Captured
}

/// Grabs the pointer if it is free and releases it if it is captured.
pub fn toggle_grab_cursor(state: &mut CursorCaptureState)
    ensures
        *final(state) == old(state).toggled(),
{
    *state = state.on_signal(true);
}

/// Toggling twice gives the state back.
pub proof fn law_toggle_twice(state: CursorCaptureState)
    ensures
        state.toggled().toggled() == state,
        state.toggled() != state,
{
}

} // verus!
