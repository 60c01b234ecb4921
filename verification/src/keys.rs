//! The fixed dispatch table: which physical key plays which logical role.

use vstd::prelude::*;

verus! {

/// Event-type tag of the keyboard's key-event channel.
pub const EV_KEY: u16 = 1;

/// Scan code of the terminate key (Esc).
pub const KEY_ESC: u16 = 1;

/// Scan code of the primary-click key (S).
pub const KEY_S: u16 = 31;

/// Scan code of the secondary-click key (D).
pub const KEY_D: u16 = 32;

/// Scan code of the move-left key (H).
pub const KEY_H: u16 = 35;

/// Scan code of the move-down key (J).
pub const KEY_J: u16 = 36;

/// Scan code of the move-up key (K).
pub const KEY_K: u16 = 37;

/// Scan code of the move-right key (L).
pub const KEY_L: u16 = 38;

/// Scan code of the left modifier key (left Shift).
pub const KEY_LEFTSHIFT: u16 = 42;

/// Scan code of the right modifier key (right Shift).
pub const KEY_RIGHTSHIFT: u16 = 54;

/// The logical role a key plays, whatever its physical identity.
#[derive(Clone, Copy, Debug, PartialEq, Eq, Structural)]
pub enum KeyRole {
    MoveLeft,
    MoveDown,
    MoveUp,
    MoveRight,
    Modifier,
    ClickPrimary,
    ClickSecondary,
    Terminate,
}

/// The dispatch table as a mathematical function: every role answers to one
/// scan code, except `Modifier`, which answers to both Shift keys.
pub open spec fn role_of(code: u16) -> Option<KeyRole> {
    if code == KEY_H {
        Some(KeyRole::MoveLeft)
    } else if code == KEY_J {
        Some(KeyRole::MoveDown)
    } else if code == KEY_K {
        Some(KeyRole::MoveUp)
    } else if code == KEY_L {
        Some(KeyRole::MoveRight)
    } else if code == KEY_LEFTSHIFT || code == KEY_RIGHTSHIFT {
        Some(KeyRole::Modifier)
    } else if code == KEY_S {
        Some(KeyRole::ClickPrimary)
    } else if code == KEY_D {
        Some(KeyRole::ClickSecondary)
    } else if code == KEY_ESC {
        Some(KeyRole::Terminate)
    } else {
        None
    }
}

/// Looks a scan code up in the dispatch table; `None` for a key that has no
/// role.
pub fn role_of_code(code: u16) -> (role: Option<KeyRole>)
    ensures
        role == role_of(code),
{
    if code == KEY_H {
        Some(KeyRole::MoveLeft)
    } else if code == KEY_J {
        Some(KeyRole::MoveDown)
    } else if code == KEY_K {
        Some(KeyRole::MoveUp)
    } else if code == KEY_L {
        Some(KeyRole::MoveRight)
    } else if code == KEY_LEFTSHIFT || code == KEY_RIGHTSHIFT {
        Some(KeyRole::Modifier)
    } else if code == KEY_S {
        Some(KeyRole::ClickPrimary)
    } else if code == KEY_D {
        Some(KeyRole::ClickSecondary)
    } else if code == KEY_ESC {
        Some(KeyRole::Terminate)
    } else {
        None
    }
}

} // verus!
