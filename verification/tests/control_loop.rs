use keyboard_mouse::config::Config;
use keyboard_mouse::control_loop::{ControlLoop, EXIT_OK, TICK_MS};
use keyboard_mouse::keys::{
    EV_KEY, KEY_D, KEY_ESC, KEY_H, KEY_J, KEY_L, KEY_LEFTSHIFT, KEY_RIGHTSHIFT, KEY_S,
};
use keyboard_mouse::state::ControlState;
use keyboard_mouse::translator::{Action, Button, RawEvent};

fn key(code: u16, value: i32) -> RawEvent {
    RawEvent { kind: EV_KEY, code, value }
}

fn click(button: Button) -> Vec<Action> {
    vec![
        Action::Press(button),
        Action::Synchronize,
        Action::Pause(10),
        Action::Release(button),
        Action::Synchronize,
    ]
}

fn released() -> ControlState {
    ControlState { left: false, down: false, up: false, right: false, modifier: false }
}

#[test]
fn new_loop_runs_with_nothing_held() {
    let control = ControlLoop::new(Config::default());
    assert!(control.is_running());
    assert_eq!(control.snapshot(), released());
    assert_eq!(control.config().keyboard_device, "/dev/input/event0");
    assert_eq!(control.config().base_speed, 5);
    assert_eq!(control.config().shift_multiplier, 3);
    assert_eq!(TICK_MS, 10);
    assert_eq!(EXIT_OK, 0);
}

#[test]
fn idle_iteration_only_pauses() {
    let mut control = ControlLoop::new(Config::default());
    assert_eq!(control.run_iteration(Some(vec![])), vec![Action::Pause(10)]);
    assert!(control.is_running());
}

#[test]
fn failed_read_counts_as_no_events() {
    let mut control = ControlLoop::new(Config::default());
    control.run_iteration(Some(vec![key(KEY_L, 1)]));
    let held = control.snapshot();
    assert_eq!(
        control.run_iteration(None),
        vec![Action::MoveX(5), Action::Synchronize, Action::Pause(10)]
    );
    assert_eq!(control.snapshot(), held);
    assert!(control.is_running());
}

#[test]
fn held_key_moves_on_every_tick() {
    let mut control = ControlLoop::new(Config::default());
    let expected = vec![Action::MoveX(5), Action::Synchronize, Action::Pause(10)];
    assert_eq!(control.run_iteration(Some(vec![key(KEY_L, 1)])), expected);
    assert_eq!(control.run_iteration(Some(vec![])), expected);
    assert_eq!(control.run_iteration(Some(vec![])), expected);
    assert_eq!(control.run_iteration(Some(vec![key(KEY_L, 0)])), vec![Action::Pause(10)]);
}

#[test]
fn held_keys_with_modifier_move_faster() {
    let mut control = ControlLoop::new(Config::default());
    let plan = control.run_iteration(Some(vec![
        key(KEY_L, 1),
        key(KEY_J, 1),
        key(KEY_LEFTSHIFT, 1),
    ]));
    assert_eq!(
        plan,
        vec![Action::MoveX(15), Action::MoveY(15), Action::Synchronize, Action::Pause(10)]
    );
}

#[test]
fn opposite_keys_in_one_batch_put_nothing_on_the_pointer() {
    let mut control = ControlLoop::new(Config::default());
    let plan = control.run_iteration(Some(vec![key(KEY_H, 1), key(KEY_L, 1)]));
    assert_eq!(plan, vec![Action::Pause(10)]);
    let fast = control.run_iteration(Some(vec![key(KEY_RIGHTSHIFT, 1)]));
    assert_eq!(fast, vec![Action::Pause(10)]);
}

#[test]
fn motion_uses_the_keys_held_after_the_batch() {
    let mut control = ControlLoop::new(Config::default());
    let plan = control.run_iteration(Some(vec![key(KEY_L, 1), key(KEY_L, 0), key(KEY_H, 1)]));
    assert_eq!(plan, vec![Action::MoveX(-5), Action::Synchronize, Action::Pause(10)]);
}

#[test]
fn clicks_come_before_motion_in_event_order() {
    let mut control = ControlLoop::new(Config::default());
    let plan = control.run_iteration(Some(vec![
        key(KEY_LEFTSHIFT, 1),
        key(KEY_S, 1),
        key(KEY_D, 1),
        key(KEY_J, 1),
    ]));
    let mut expected = click(Button::Primary);
    expected.extend(click(Button::Secondary));
    expected.extend(vec![Action::MoveY(15), Action::Synchronize, Action::Pause(10)]);
    assert_eq!(plan, expected);
}

#[test]
fn click_uses_the_modifier_as_held_at_the_press() {
    let mut control = ControlLoop::new(Config::default());
    let plan = control.run_iteration(Some(vec![
        key(KEY_S, 1),
        key(KEY_LEFTSHIFT, 1),
        key(KEY_S, 0),
        key(KEY_D, 1),
        key(KEY_LEFTSHIFT, 0),
        key(KEY_D, 1),
    ]));
    let mut expected = click(Button::Secondary);
    expected.push(Action::Pause(10));
    assert_eq!(plan, expected);
}

#[test]
fn each_qualifying_press_clicks_exactly_once() {
    let mut control = ControlLoop::new(Config::default());
    let plan = control.run_iteration(Some(vec![
        key(KEY_RIGHTSHIFT, 1),
        key(KEY_S, 1),
        key(KEY_S, 0),
        key(KEY_S, 1),
        key(KEY_S, 0),
    ]));
    let presses = plan.iter().filter(|a| **a == Action::Press(Button::Primary)).count();
    let releases = plan.iter().filter(|a| **a == Action::Release(Button::Primary)).count();
    assert_eq!(presses, 2);
    assert_eq!(releases, 2);
    assert!(!plan.contains(&Action::Press(Button::Secondary)));
}

#[test]
fn terminate_key_exits_and_skips_motion() {
    let mut control = ControlLoop::new(Config::default());
    let plan = control.run_iteration(Some(vec![key(KEY_L, 1), key(KEY_ESC, 1)]));
    assert_eq!(plan, vec![Action::Exit(0)]);
    assert!(!control.is_running());
}

#[test]
fn terminate_key_keeps_earlier_clicks_and_drops_later_events() {
    let mut control = ControlLoop::new(Config::default());
    let plan = control.run_iteration(Some(vec![
        key(KEY_LEFTSHIFT, 1),
        key(KEY_S, 1),
        key(KEY_ESC, 1),
        key(KEY_D, 1),
        key(KEY_L, 1),
    ]));
    let mut expected = click(Button::Primary);
    expected.push(Action::Exit(0));
    assert_eq!(plan, expected);
    assert!(!control.is_running());
    assert!(!control.snapshot().right);
}

#[test]
fn terminate_key_does_not_release_the_grab() {
    let mut control = ControlLoop::new(Config::default());
    let plan = control.run_iteration(Some(vec![key(KEY_ESC, 1)]));
    assert!(!plan.contains(&Action::ReleaseGrab));
}

#[test]
fn terminate_release_does_not_stop_the_loop() {
    let mut control = ControlLoop::new(Config::default());
    assert_eq!(control.run_iteration(Some(vec![key(KEY_ESC, 0)])), vec![Action::Pause(10)]);
    assert!(control.is_running());
}

#[test]
fn run_flag_true_changes_nothing() {
    let mut control = ControlLoop::new(Config::default());
    control.run_iteration(Some(vec![key(KEY_H, 1)]));
    let held = control.snapshot();
    assert_eq!(control.observe_run_flag(true), vec![]);
    assert!(control.is_running());
    assert_eq!(control.snapshot(), held);
}

#[test]
fn run_flag_false_releases_the_grab_and_exits() {
    let mut control = ControlLoop::new(Config::default());
    assert_eq!(control.observe_run_flag(false), vec![Action::ReleaseGrab, Action::Exit(0)]);
    assert!(!control.is_running());
}

#[test]
fn stopped_loop_asks_for_nothing() {
    let mut control = ControlLoop::new(Config::default());
    control.observe_run_flag(false);
    assert_eq!(control.observe_run_flag(false), vec![]);
    assert_eq!(control.observe_run_flag(true), vec![]);
    assert!(!control.is_running());
    assert_eq!(control.run_iteration(Some(vec![key(KEY_L, 1)])), vec![]);
    assert_eq!(control.run_iteration(None), vec![]);
    assert!(!control.is_running());
    assert_eq!(control.snapshot(), released());
}

#[test]
fn loop_stopped_by_the_terminate_key_stays_stopped() {
    let mut control = ControlLoop::new(Config::default());
    control.run_iteration(Some(vec![key(KEY_ESC, 1)]));
    assert_eq!(control.observe_run_flag(true), vec![]);
    assert!(!control.is_running());
    assert_eq!(control.observe_run_flag(false), vec![]);
    assert_eq!(control.run_iteration(Some(vec![])), vec![]);
}

#[test]
fn loop_uses_the_configuration_it_was_given() {
    let config = Config {
        keyboard_device: String::from("/dev/input/event4"),
        base_speed: 2,
        shift_multiplier: 50,
    };
    let mut control = ControlLoop::new(config);
    let plan = control.run_iteration(Some(vec![key(KEY_H, 1), key(KEY_LEFTSHIFT, 1)]));
    assert_eq!(plan, vec![Action::MoveX(-100), Action::Synchronize, Action::Pause(10)]);
    assert_eq!(control.config().keyboard_device, "/dev/input/event4");
}
