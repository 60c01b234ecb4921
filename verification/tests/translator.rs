use keyboard_mouse::keys::{
    EV_KEY, KEY_D, KEY_ESC, KEY_H, KEY_J, KEY_K, KEY_L, KEY_LEFTSHIFT, KEY_RIGHTSHIFT, KEY_S,
};
use keyboard_mouse::state::ControlState;
use keyboard_mouse::translator::{
    click_actions, Action, Button, Effect, EventTranslator, RawEvent, CLICK_HOLD_MS,
};

fn key(code: u16, value: i32) -> RawEvent {
    RawEvent { kind: EV_KEY, code, value }
}

fn released() -> ControlState {
    ControlState { left: false, down: false, up: false, right: false, modifier: false }
}

#[test]
fn direction_keys_set_and_clear_their_flags() {
    let mut t = EventTranslator::new();
    assert_eq!(t.process_event(key(KEY_H, 1)), Effect::Nothing);
    assert_eq!(t.snapshot(), ControlState { left: true, ..released() });
    assert_eq!(t.process_event(key(KEY_J, 1)), Effect::Nothing);
    assert_eq!(t.process_event(key(KEY_K, 1)), Effect::Nothing);
    assert_eq!(t.process_event(key(KEY_L, 1)), Effect::Nothing);
    assert_eq!(
        t.snapshot(),
        ControlState { left: true, down: true, up: true, right: true, modifier: false }
    );
    assert_eq!(t.process_event(key(KEY_H, 0)), Effect::Nothing);
    assert_eq!(t.process_event(key(KEY_K, 0)), Effect::Nothing);
    assert_eq!(
        t.snapshot(),
        ControlState { left: false, down: true, up: false, right: true, modifier: false }
    );
}

#[test]
fn repeat_counts_as_pressed() {
    let mut t = EventTranslator::new();
    t.process_event(key(KEY_L, 2));
    assert!(t.snapshot().right);
}

#[test]
fn second_press_without_release_changes_nothing() {
    let mut t = EventTranslator::new();
    t.process_event(key(KEY_J, 1));
    let once = t.snapshot();
    t.process_event(key(KEY_J, 1));
    assert_eq!(t.snapshot(), once);
    assert_eq!(once, ControlState { down: true, ..released() });
}

#[test]
fn events_of_other_channels_are_ignored() {
    let mut t = EventTranslator::new();
    let kinds: [u16; 4] = [0, 2, 3, 4];
    for kind in kinds {
        assert_eq!(t.process_event(RawEvent { kind, code: KEY_H, value: 1 }), Effect::Nothing);
        assert_eq!(t.process_event(RawEvent { kind, code: KEY_ESC, value: 1 }), Effect::Nothing);
        assert_eq!(
            t.process_event(RawEvent { kind, code: KEY_LEFTSHIFT, value: 1 }),
            Effect::Nothing
        );
    }
    assert_eq!(t.snapshot(), released());
    assert_eq!(t.process_event(key(KEY_S, 1)), Effect::Nothing);
}

#[test]
fn keys_without_a_role_are_ignored() {
    let mut t = EventTranslator::new();
    t.process_event(key(KEY_L, 1));
    let before = t.snapshot();
    assert_eq!(t.process_event(key(30, 1)), Effect::Nothing);
    assert_eq!(t.process_event(key(57, 1)), Effect::Nothing);
    assert_eq!(t.snapshot(), before);
}

#[test]
fn either_shift_alone_holds_the_modifier() {
    let mut left = EventTranslator::new();
    left.process_event(key(KEY_LEFTSHIFT, 1));
    assert!(left.snapshot().modifier);
    let mut right = EventTranslator::new();
    right.process_event(key(KEY_RIGHTSHIFT, 1));
    assert!(right.snapshot().modifier);
}

#[test]
fn releasing_one_shift_keeps_the_modifier_while_the_other_is_down() {
    let mut t = EventTranslator::new();
    t.process_event(key(KEY_LEFTSHIFT, 1));
    t.process_event(key(KEY_RIGHTSHIFT, 1));
    t.process_event(key(KEY_LEFTSHIFT, 0));
    assert!(t.snapshot().modifier);
    t.process_event(key(KEY_RIGHTSHIFT, 0));
    assert!(!t.snapshot().modifier);

    t.process_event(key(KEY_RIGHTSHIFT, 1));
    t.process_event(key(KEY_LEFTSHIFT, 1));
    t.process_event(key(KEY_RIGHTSHIFT, 0));
    assert!(t.snapshot().modifier);
    t.process_event(key(KEY_LEFTSHIFT, 0));
    assert!(!t.snapshot().modifier);
}

#[test]
fn shift_keys_leave_the_directions_alone() {
    let mut t = EventTranslator::new();
    t.process_event(key(KEY_H, 1));
    t.process_event(key(KEY_LEFTSHIFT, 1));
    assert_eq!(t.snapshot(), ControlState { left: true, modifier: true, ..released() });
    t.process_event(key(KEY_LEFTSHIFT, 0));
    assert_eq!(t.snapshot(), ControlState { left: true, ..released() });
}

#[test]
fn click_fires_on_a_press_with_the_modifier_held() {
    let mut t = EventTranslator::new();
    t.process_event(key(KEY_LEFTSHIFT, 1));
    let before = t.snapshot();
    assert_eq!(t.process_event(key(KEY_S, 1)), Effect::Click(Button::Primary));
    assert_eq!(t.process_event(key(KEY_D, 1)), Effect::Click(Button::Secondary));
    assert_eq!(t.snapshot(), before);
}

#[test]
fn click_fires_once_per_press_event() {
    let mut t = EventTranslator::new();
    t.process_event(key(KEY_RIGHTSHIFT, 1));
    assert_eq!(t.process_event(key(KEY_S, 1)), Effect::Click(Button::Primary));
    assert_eq!(t.process_event(key(KEY_S, 0)), Effect::Nothing);
    assert_eq!(t.process_event(key(KEY_S, 1)), Effect::Click(Button::Primary));
    assert_eq!(t.process_event(key(KEY_S, 2)), Effect::Click(Button::Primary));
}

#[test]
fn click_never_fires_on_release() {
    let mut t = EventTranslator::new();
    t.process_event(key(KEY_LEFTSHIFT, 1));
    assert_eq!(t.process_event(key(KEY_S, 0)), Effect::Nothing);
    assert_eq!(t.process_event(key(KEY_D, 0)), Effect::Nothing);
}

#[test]
fn click_never_fires_without_the_modifier() {
    let mut t = EventTranslator::new();
    assert_eq!(t.process_event(key(KEY_S, 1)), Effect::Nothing);
    assert_eq!(t.process_event(key(KEY_D, 1)), Effect::Nothing);
    t.process_event(key(KEY_LEFTSHIFT, 1));
    t.process_event(key(KEY_LEFTSHIFT, 0));
    assert_eq!(t.process_event(key(KEY_S, 1)), Effect::Nothing);
    assert_eq!(t.process_event(key(KEY_D, 1)), Effect::Nothing);
}

#[test]
fn terminate_fires_on_press_only() {
    let mut t = EventTranslator::new();
    assert_eq!(t.process_event(key(KEY_ESC, 0)), Effect::Nothing);
    assert_eq!(t.process_event(key(KEY_ESC, 1)), Effect::Terminate);
    assert_eq!(t.snapshot(), released());
    t.process_event(key(KEY_LEFTSHIFT, 1));
    assert_eq!(t.process_event(key(KEY_ESC, 1)), Effect::Terminate);
}

#[test]
fn click_is_press_flush_hold_release_flush() {
    assert_eq!(CLICK_HOLD_MS, 10);
    assert_eq!(
        click_actions(Button::Primary),
        vec![
            Action::Press(Button::Primary),
            Action::Synchronize,
            Action::Pause(10),
            Action::Release(Button::Primary),
            Action::Synchronize,
        ]
    );
    assert_eq!(
        click_actions(Button::Secondary),
        vec![
            Action::Press(Button::Secondary),
            Action::Synchronize,
            Action::Pause(10),
            Action::Release(Button::Secondary),
            Action::Synchronize,
        ]
    );
}
