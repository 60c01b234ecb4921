//! Turns one raw key transition into a state change and an effect.

use vstd::prelude::*;
use crate::keys::{
    role_of, role_of_code, KeyRole, EV_KEY, KEY_D, KEY_LEFTSHIFT, KEY_RIGHTSHIFT, KEY_S,
};
use crate::state::{ControlState, KeyStateTracker};

verus! {

/// How long a synthetic click holds the button down, in milliseconds.
pub const CLICK_HOLD_MS: u64 = 10;

/// One transition as the keyboard reports it: the channel it came from, the
/// scan code, and the value (0 for key-up, anything else for key-down or
/// repeat).
#[derive(Clone, Copy, Debug, PartialEq, Eq, Structural)]
pub struct RawEvent {
    pub kind: u16,
    pub code: u16,
    pub value: i32,
}

impl RawEvent {
    /// Whether the event comes from the key-event channel.
    pub open spec fn is_key(self) -> bool {
        self.kind == EV_KEY
    }

    /// Whether the event reports the key as down.
    pub open spec fn pressed(self) -> bool {
        self.value != 0
    }
}

/// A button of the synthetic pointer.
#[derive(Clone, Copy, Debug, PartialEq, Eq, Structural)]
pub enum Button {
    Primary,
    Secondary,
}

impl Button {
    /// The scan code of the key that clicks this button.
    pub open spec fn key(self) -> u16 {
        match self {
            Button::Primary => KEY_S,
            Button::Secondary => KEY_D,
        }
    }
}

/// One thing for the caller to do, in the order given.
#[derive(Clone, Copy, Debug, PartialEq, Eq, Structural)]
pub enum Action {
    /// Press a pointer button.
    Press(Button),
    /// Release a pointer button.
    Release(Button),
    /// Flush what was emitted to the pointer since the last flush.
    Synchronize,
    /// Wait this many milliseconds.
    Pause(u64),
    /// Emit a relative move along X.
    MoveX(i64),
    /// Emit a relative move along Y.
    MoveY(i64),
    /// Give up the exclusive hold on the keyboard.
    ReleaseGrab,
    /// End the process with this exit code.
    Exit(i32),
}

/// What one event asks for beyond the state change.
#[derive(Clone, Copy, Debug, PartialEq, Eq, Structural)]
pub enum Effect {
    Nothing,
    Click(Button),
    Terminate,
}

/// Everything the translator remembers: the five flags that motion reads, and
/// one latch per Shift key, so that releasing one Shift while the other is
/// still down leaves the modifier on.
pub struct TranslatorState {
    pub control: ControlState,
    pub left_modifier: bool,
    pub right_modifier: bool,
}

impl TranslatorState {
    /// The state before any event: nothing held.
    pub open spec fn initial() -> TranslatorState {
        TranslatorState {
            control: ControlState::released(),
            left_modifier: false,
            right_modifier: false,
        }
    }

    /// The modifier flag is the OR of the two latches.
    pub open spec fn wf(self) -> bool {
        self.control.modifier == (self.left_modifier || self.right_modifier)
    }
}

/// The state after `event`. Events from other channels and keys without a
/// role change nothing; a direction key sets its flag to the event's value; a
/// Shift key sets its latch and the modifier flag becomes the OR of both
/// latches; click and terminate keys leave the state alone.
pub open spec fn next_state(s: TranslatorState, event: RawEvent) -> TranslatorState {
    if !event.is_key() {
        s
    } else {
        let left_modifier = if event.code == KEY_LEFTSHIFT {
            event.pressed()
        } else {
            s.left_modifier
        };
        let right_modifier = if event.code == KEY_RIGHTSHIFT {
            event.pressed()
        } else {
            s.right_modifier
        };
        let control = match role_of(event.code) {
            Some(KeyRole::Modifier) => s.control.with(
                KeyRole::Modifier,
                left_modifier || right_modifier,
            ),
            Some(role) => s.control.with(role, event.pressed()),
            None => s.control,
        };
        TranslatorState { control, left_modifier, right_modifier }
    }
}

/// The effect of `event` in state `s`: a click when a click key goes down
/// while the modifier is held, termination when the terminate key goes down,
/// and nothing in every other case.
pub open spec fn effect_of(s: TranslatorState, event: RawEvent) -> Effect {
    if !event.is_key() || !event.pressed() {
        Effect::Nothing
    } else {
        match role_of(event.code) {
            Some(KeyRole::ClickPrimary) if s.control.modifier => Effect::Click(Button::Primary),
            Some(KeyRole::ClickSecondary) if s.control.modifier => Effect::Click(
                Button::Secondary,
            ),
            Some(KeyRole::Terminate) => Effect::Terminate,
            _ => Effect::Nothing,
        }
    }
}

/// A synthetic click: press, flush, hold, release, flush.
pub open spec fn click_sequence(button: Button) -> Seq<Action> {
    seq![
        Action::Press(button),
        Action::Synchronize,
        Action::Pause(CLICK_HOLD_MS),
        Action::Release(button),
        Action::Synchronize,
    ]
}

/// The actions of a synthetic click on `button`, in order.
pub fn click_actions(button: Button) -> (actions: Vec<Action>)
    ensures
        actions@ == click_sequence(button),
{
    let mut actions: Vec<Action> = Vec::new();
    actions.push(Action::Press(button));
    actions.push(Action::Synchronize);
    actions.push(Action::Pause(CLICK_HOLD_MS));
    actions.push(Action::Release(button));
    actions.push(Action::Synchronize);
    actions
}

/// Consumes raw events one at a time and keeps the held-key state.
#[derive(Clone, Copy, Debug)]
pub struct EventTranslator {
    tracker: KeyStateTracker,
    left_modifier: bool,
    right_modifier: bool,
}

impl View for EventTranslator {
    type V = TranslatorState;

    closed spec fn view(&self) -> TranslatorState {
        TranslatorState {
            control: self.tracker@,
            left_modifier: self.left_modifier,
            right_modifier: self.right_modifier,
        }
    }
}

impl EventTranslator {
    /// A translator that has seen no event yet.
    pub fn new() -> (translator: Self)
        ensures
            translator@ == TranslatorState::initial(),
            translator@.wf(),
    {
        EventTranslator {
            tracker: KeyStateTracker::new(),
            left_modifier: false,
            right_modifier: false,
        }
    }

    /// The five flags as they stand, by value.
    pub fn snapshot(&self) -> (state: ControlState)
        ensures
            state == self@.control,
    {
        self.tracker.snapshot()
    }

    /// Applies one raw event: updates the held-key state and says what else
    /// the event asks for. The channel is tested before the scan code is
    /// looked at.
    pub fn process_event(&mut self, event: RawEvent) -> (effect: Effect)
        ensures
            final(self)@ == next_state(old(self)@, event),
            effect == effect_of(old(self)@, event),
            old(self)@.wf() ==> final(self)@.wf(),
    {
        if event.kind != EV_KEY {
            return Effect::Nothing;
        }
        let pressed = event.value != 0;
        match role_of_code(event.code) {
            None => Effect::Nothing,
            Some(KeyRole::Modifier) => {
                if event.code == KEY_LEFTSHIFT {
                    self.left_modifier = pressed;
                } else {
                    self.right_modifier = pressed;
                }
                let held = self.left_modifier || self.right_modifier;
                self.tracker.set(KeyRole::Modifier, held);
                Effect::Nothing
            },
            Some(KeyRole::ClickPrimary) => {
                if pressed && self.tracker.snapshot().modifier {
                    Effect::Click(Button::Primary)
                } else {
                    Effect::Nothing
                }
            },
            Some(KeyRole::ClickSecondary) => {
                if pressed && self.tracker.snapshot().modifier {
                    Effect::Click(Button::Secondary)
                } else {
                    Effect::Nothing
                }
            },
            Some(KeyRole::Terminate) => {
                if pressed {
                    Effect::Terminate
                } else {
                    Effect::Nothing
                }
            },
            Some(role) => {
                self.tracker.set(role, pressed);
                Effect::Nothing
            },
        }
    }
}

/// An event never breaks the tie between the modifier flag and the latches.
pub proof fn lemma_next_state_keeps_wf(s: TranslatorState, event: RawEvent)
    requires
        s.wf(),
    ensures
        next_state(s, event).wf(),
{
}

/// Applying the same event twice in a row gives the state that applying it
/// once gives. In particular a second press of a direction key that is
/// already down changes no flag.
pub proof fn lemma_repeated_event_changes_nothing(s: TranslatorState, event: RawEvent)
    ensures
        next_state(next_state(s, event), event) == next_state(s, event),
{
}

/// A press of a direction key sets that key's flag and leaves every other
/// flag and both latches as they were.
pub proof fn lemma_direction_press_sets_one_flag(s: TranslatorState, event: RawEvent)
    requires
        event.is_key(),
        role_of(event.code) matches Some(role) && (role == KeyRole::MoveLeft || role
            == KeyRole::MoveDown || role == KeyRole::MoveUp || role == KeyRole::MoveRight),
    ensures
        next_state(s, event).control == s.control.with(
            role_of(event.code).unwrap(),
            event.pressed(),
        ),
        next_state(s, event).left_modifier == s.left_modifier,
        next_state(s, event).right_modifier == s.right_modifier,
{
}

/// The key event of the left (`left == true`) or right Shift key with the
/// given value.
pub open spec fn shift_event(left: bool, value: i32) -> RawEvent {
    RawEvent {
        kind: EV_KEY,
        code: if left {
            KEY_LEFTSHIFT
        } else {
            KEY_RIGHTSHIFT
        },
        value,
    }
}

/// The modifier flag is the OR of the two Shift keys. Pressing either one
/// turns it on whatever was held before; releasing one while the other is
/// still down leaves it on; releasing both, in either order, turns it off.
pub proof fn lemma_modifier_is_or_of_shift_keys(s: TranslatorState, value: i32)
    requires
        value != 0,
    ensures
        next_state(s, shift_event(true, value)).control.modifier,
        next_state(s, shift_event(false, value)).control.modifier,
        s.right_modifier ==> next_state(s, shift_event(true, 0)).control.modifier,
        s.left_modifier ==> next_state(s, shift_event(false, 0)).control.modifier,
        !next_state(
            next_state(s, shift_event(true, 0)),
            shift_event(false, 0),
        ).control.modifier,
        !next_state(
            next_state(s, shift_event(false, 0)),
            shift_event(true, 0),
        ).control.modifier,
{
}

/// A click on `button` comes from exactly one kind of event: a key event of
/// that button's key, reporting it down, while the modifier is held. A
/// release never clicks, and neither does a press without the modifier.
pub proof fn lemma_click_needs_modified_press(s: TranslatorState, event: RawEvent, button: Button)
    ensures
        effect_of(s, event) == Effect::Click(button) <==> (event.is_key() && event.code
            == button.key() && event.pressed() && s.control.modifier),
{
}

/// How often `actions` press `button`.
pub open spec fn press_count(actions: Seq<Action>, button: Button) -> nat {
    actions.filter(|a: Action| a == Action::Press(button)).len()
}

/// How often `actions` release `button`.
pub open spec fn release_count(actions: Seq<Action>, button: Button) -> nat {
    actions.filter(|a: Action| a == Action::Release(button)).len()
}

/// A synthetic click presses its button once and releases it once, and
/// touches no other button.
pub proof fn lemma_click_presses_once(button: Button, other: Button)
    ensures
        press_count(click_sequence(button), other) == (if other == button {
            1nat
        } else {
            0nat
        }),
        release_count(click_sequence(button), other) == (if other == button {
            1nat
        } else {
            0nat
        }),
{
    let s = click_sequence(button);
    reveal_with_fuel(Seq::filter, 6);
    assert(s.drop_last().drop_last().drop_last().drop_last().drop_last() =~= Seq::<Action>::empty());
}

} // verus!
