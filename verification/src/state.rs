//! The held-key state that motion is computed from.

use vstd::prelude::*;
use crate::keys::KeyRole;

verus! {

/// Which of the four directions and the modifier are held right now.
#[derive(Clone, Copy, Debug, PartialEq, Eq, Structural)]
pub struct ControlState {
    pub left: bool,
    pub down: bool,
    pub up: bool,
    pub right: bool,
    pub modifier: bool,
}

impl ControlState {
    /// The state in which nothing is held.
    pub open spec fn released() -> ControlState {
        ControlState { left: false, down: false, up: false, right: false, modifier: false }
    }

    /// This state with the flag of `role` set to `pressed`. The click and
    /// terminate roles have no flag, so they leave the state as it is.
    pub open spec fn with(self, role: KeyRole, pressed: bool) -> ControlState {
        match role {
            KeyRole::MoveLeft => ControlState { left: pressed, ..self },
            KeyRole::MoveDown => ControlState { down: pressed, ..self },
            KeyRole::MoveUp => ControlState { up: pressed, ..self },
            KeyRole::MoveRight => ControlState { right: pressed, ..self },
            KeyRole::Modifier => ControlState { modifier: pressed, ..self },
            KeyRole::ClickPrimary | KeyRole::ClickSecondary | KeyRole::Terminate => self,
        }
    }
}

/// Owns the held-key flags. Callers change them through `set` and read them
/// through `snapshot`, which hands out a copy.
#[derive(Clone, Copy, Debug)]
pub struct KeyStateTracker {
    state: ControlState,
}

impl View for KeyStateTracker {
    type V = ControlState;

    closed spec fn view(&self) -> ControlState {
        self.state
    }
}

impl KeyStateTracker {
    /// A tracker in which nothing is held.
    pub fn new() -> (tracker: Self)
        ensures
            tracker@ == ControlState::released(),
    {
        KeyStateTracker {
            state: ControlState {
                left: false,
                down: false,
                up: false,
                right: false,
                modifier: false,
            },
        }
    }

    /// Records that the key of `role` is now pressed or released. Every other
    /// flag keeps its value.
    pub fn set(&mut self, role: KeyRole, pressed: bool)
        ensures
            final(self)@ == old(self)@.with(role, pressed),
    {
        match role {
            KeyRole::MoveLeft => {
                self.state.left = pressed;
            },
            KeyRole::MoveDown => {
                self.state.down = pressed;
            },
            KeyRole::MoveUp => {
                self.state.up = pressed;
            },
            KeyRole::MoveRight => {
                self.state.right = pressed;
            },
            KeyRole::Modifier => {
                self.state.modifier = pressed;
            },
            KeyRole::ClickPrimary | KeyRole::ClickSecondary | KeyRole::Terminate => {},
        }
    }

    /// The current flags, by value.
    pub fn snapshot(&self) -> (state: ControlState)
        ensures
            state == self@,
    {
        self.state
    }
}

/// Setting a flag twice to the same value is the same as setting it once: a
/// second press of a key that is already down leaves the state as it is.
pub proof fn lemma_set_is_idempotent(state: ControlState, role: KeyRole, pressed: bool)
    ensures
        state.with(role, pressed).with(role, pressed) == state.with(role, pressed),
{
}

/// Setting one role's flag leaves the flag of every other role alone.
pub proof fn lemma_set_touches_one_flag(
    state: ControlState,
    role: KeyRole,
    pressed: bool,
    other: KeyRole,
    value: bool,
)
    requires
        role != other,
    ensures
        state.with(role, pressed).with(other, value) == state.with(other, value).with(
            role,
            pressed,
        ),
{
}

} // verus!
