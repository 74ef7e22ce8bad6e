use macropad::keymap::{Action, AppAction, KeyMapper, KeyState, Modifier, ModifierState, TapHoldState};
use usbd_human_interface_device::page::Keyboard;

const MS: u64 = 1_000;
const T0: u64 = 1_000 * MS;

fn tap_hold() -> ModifierState {
    ModifierState::TapHold(
        Action::Keyboard(Keyboard::Keypad7),
        Action::App(AppAction::Bootloader),
        TapHoldState::new(),
    )
}

const TAP: Action = Action::Keyboard(Keyboard::Keypad7);
const HOLD: Action = Action::App(AppAction::Bootloader);

#[test]
fn short_press_taps_on_release() {
    let mut slot = tap_hold();
    assert_eq!(slot.map(KeyState::Down, T0), None);
    assert_eq!(slot.map(KeyState::Up, T0 + 100 * MS), Some(TAP));
}

#[test]
fn long_press_holds_and_repeats() {
    let mut slot = tap_hold();
    assert_eq!(slot.map(KeyState::Down, T0), None);
    assert_eq!(slot.map(KeyState::Down, T0 + 600 * MS), Some(HOLD));
    assert_eq!(slot.map(KeyState::Down, T0 + 620 * MS), Some(HOLD));
    assert_eq!(slot.map(KeyState::Up, T0 + 640 * MS), Some(HOLD));
    assert_eq!(slot.map(KeyState::Up, T0 + 700 * MS), None);
}

#[test]
fn no_hold_before_the_threshold() {
    let mut slot = tap_hold();
    assert_eq!(slot.map(KeyState::Down, T0), None);
    assert_eq!(slot.map(KeyState::Down, T0 + 500 * MS), None);
    assert_eq!(slot.map(KeyState::Down, T0 + 500 * MS + 999), None);
    assert_eq!(slot.map(KeyState::Down, T0 + 501 * MS), Some(HOLD));
}

#[test]
fn release_at_the_threshold_still_taps() {
    let mut slot = tap_hold();
    slot.map(KeyState::Down, T0);
    assert_eq!(slot.map(KeyState::Up, T0 + 500 * MS + 999), Some(TAP));

    let mut slot = tap_hold();
    slot.map(KeyState::Down, T0);
    assert_eq!(slot.map(KeyState::Up, T0 + 501 * MS), Some(HOLD));
}

#[test]
fn tap_repeats_only_within_the_press_length() {
    let mut slot = tap_hold();
    slot.map(KeyState::Down, T0);
    assert_eq!(slot.map(KeyState::Up, T0 + 100 * MS), Some(TAP));
    assert_eq!(slot.map(KeyState::Up, T0 + 150 * MS), Some(TAP));
    assert_eq!(slot.map(KeyState::Up, T0 + 200 * MS), Some(TAP));
    assert_eq!(slot.map(KeyState::Up, T0 + 201 * MS), None);
    assert_eq!(slot.map(KeyState::Up, T0 + 900 * MS), None);
}

#[test]
fn one_decision_per_release() {
    let mut slot = tap_hold();
    let mut holds_after_release = 0;
    slot.map(KeyState::Down, T0);
    assert_eq!(slot.map(KeyState::Up, T0 + 50 * MS), Some(TAP));
    for k in 1..20u64 {
        if slot.map(KeyState::Up, T0 + 50 * MS + k * 20 * MS) == Some(HOLD) {
            holds_after_release += 1;
        }
    }
    assert_eq!(holds_after_release, 0);
}

#[test]
fn fresh_slot_emits_nothing_while_up() {
    let mut slot = tap_hold();
    assert_eq!(slot.map(KeyState::Up, T0), None);
    assert_eq!(slot.map(KeyState::Up, T0 + 10 * MS), None);
}

#[test]
fn press_at_the_clock_origin_is_not_a_transition() {
    let mut slot = tap_hold();
    assert_eq!(slot.map(KeyState::Down, 0), None);
    assert_eq!(slot.map(KeyState::Up, 100 * MS), None);
}

#[test]
fn single_fires_on_every_down_sample() {
    let a = Action::Keyboard(Keyboard::Keypad0);
    let mut slot = ModifierState::Single(a);
    for k in 0..5u64 {
        assert_eq!(slot.map(KeyState::Down, T0 + k * 20 * MS), Some(a));
    }
    assert_eq!(slot.map(KeyState::Up, T0 + 200 * MS), None);
    assert_eq!(slot.map(KeyState::Down, T0 + 220 * MS), Some(a));
    assert_eq!(slot.map(KeyState::Up, 0), None);
}

#[test]
fn mapper_keeps_slot_order_and_duplicates() {
    let a = Action::Keyboard(Keyboard::A);
    let b = Action::Keyboard(Keyboard::B);
    let mut mapper: KeyMapper<4> = KeyMapper::new([
        Modifier::Single(b),
        Modifier::Single(a),
        Modifier::TapHold(a, Action::App(AppAction::ShowMenu)),
        Modifier::Single(b),
    ]);
    let out = mapper.map(&[KeyState::Down, KeyState::Up, KeyState::Down, KeyState::Down], T0);
    assert_eq!(out, vec![b, b]);
    let out = mapper.map(&[KeyState::Up, KeyState::Down, KeyState::Up, KeyState::Down], T0 + 20 * MS);
    assert_eq!(out, vec![a, a, b]);
    let out = mapper.map(&[KeyState::Up, KeyState::Up, KeyState::Up, KeyState::Up], T0 + 40 * MS);
    assert_eq!(out, vec![a]);
}
