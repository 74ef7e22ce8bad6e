use macropad::encoder::RotaryEncoder;
use macropad::flasher::LedFlasher;
use macropad::keyboard::{
    get_hid_report, BasicKeyboardLayout, DirectPinMatrix, KeyAction, KeyState, KeyboardLayout,
    KeyboardMatrix, KeyboardState, MatrixKeyboard,
};
use macropad::keycode::{KeyCode, Modifiers, CTRL_LEFT, GUI_RIGHT, SHIFT_LEFT};
use macropad::neopixel::{wheel, Neopixels};
use macropad::numpad::Macropad;

fn turn_up(enc: &mut RotaryEncoder<u8>) {
    enc.update(false, true);
    enc.update(false, false);
    enc.update(true, false);
    enc.update(true, true);
}

fn turn_down(enc: &mut RotaryEncoder<u8>) {
    enc.update(true, false);
    enc.update(false, false);
    enc.update(false, true);
    enc.update(true, true);
}

#[test]
fn encoder_counts_one_detent_per_four_quarter_steps() {
    let mut enc = RotaryEncoder::new(1u8, 2u8);
    assert_eq!(enc.value(), 0);
    enc.update(false, true);
    enc.update(false, false);
    enc.update(true, false);
    assert_eq!(enc.value(), 0);
    enc.update(true, true);
    assert_eq!(enc.value(), -1);
    turn_down(&mut enc);
    turn_down(&mut enc);
    assert_eq!(enc.value(), 1);
    turn_up(&mut enc);
    assert_eq!(enc.value(), 0);
}

#[test]
fn encoder_ignores_repeats_and_invalid_jumps() {
    let mut enc = RotaryEncoder::new(0u8, 0u8);
    for _ in 0..10 {
        enc.update(true, true);
    }
    enc.update(false, false);
    enc.update(true, true);
    assert_eq!(enc.value(), 0);
}

#[test]
fn encoder_hands_out_its_pins() {
    let mut enc = RotaryEncoder::new(1u8, 2u8);
    assert_eq!(enc.pins_borrow(), (&1, &2));
    {
        let (a, b) = enc.pins_borrow_mut();
        *a = 5;
        *b = 6;
    }
    assert_eq!(enc.pins_borrow(), (&5, &6));
}

fn press(pad: &mut Macropad, pressed: &[usize]) {
    let mut levels = [true; 12];
    for &i in pressed {
        levels[i] = false;
    }
    for _ in 0..5 {
        pad.update(&levels);
    }
}

#[test]
fn numpad_reports_pressed_keys_in_order() {
    let mut pad = Macropad::new();
    assert_eq!(pad.get_keycodes(), [0; 6]);
    press(&mut pad, &[9, 0, 1]);
    assert_eq!(pad.get_keycodes(), [0x5f, 0x60, 0x62, 0, 0, 0]);
    let keys = pad.get_keys();
    assert!(keys[0] && keys[1] && keys[9] && !keys[2]);
}

#[test]
fn numpad_report_holds_at_most_six_keys() {
    let mut pad = Macropad::new();
    press(&mut pad, &[11, 10, 9, 8, 7, 6, 5, 4]);
    assert_eq!(pad.get_keycodes(), [0x5d, 0x5e, 0x59, 0x5a, 0x5b, 0x62]);
}

#[test]
fn numpad_keys_are_debounced() {
    let mut pad = Macropad::new();
    let mut levels = [true; 12];
    levels[3] = false;
    for _ in 0..4 {
        pad.update(&levels);
    }
    assert_eq!(pad.get_keycodes(), [0; 6]);
    pad.update(&levels);
    assert_eq!(pad.get_keycodes(), [0x5c, 0, 0, 0, 0, 0]);
}

#[test]
fn wheel_colours() {
    assert_eq!(wheel(0), (255, 0, 0));
    assert_eq!(wheel(63), (192, 0, 63));
    assert_eq!(wheel(255), (0, 0, 254));
    assert_eq!(wheel(315), (0, 60, 194));
    assert_eq!(wheel(510), (0, 254, 0));
    assert_eq!(wheel(764), (254, 0, 0));
}

#[test]
fn neopixels_spread_the_rainbow_and_light_pressed_keys() {
    let mut pixels: Neopixels<(), 12> = Neopixels::new(());
    let colours = pixels.colours(&[]);
    assert_eq!(colours.len(), 12);
    assert_eq!(colours[0], (255, 0, 0));
    assert_eq!(colours[1], (192, 0, 63));
    assert_eq!(colours[5], (0, 60, 194));
    let colours = pixels.colours(&[2, 7]);
    assert_eq!(colours[2], (255, 255, 255));
    assert_eq!(colours[7], (255, 255, 255));
    assert_eq!(colours[0], (255, 0, 0));
    pixels.advance();
    let colours = pixels.colours(&[]);
    assert_eq!(colours[0], (254, 0, 1));
    for _ in 0..764 {
        pixels.advance();
    }
    assert_eq!(pixels.colours(&[])[0], (255, 0, 0));
}

#[test]
fn key_codes_and_modifiers() {
    assert_eq!(KeyCode::NoKey.code(), 0x00);
    assert_eq!(KeyCode::A.code(), 0x04);
    assert_eq!(KeyCode::Kp00.code(), 0xB0);
    assert_eq!(KeyCode::LeftControl.code(), 0xE0);
    assert_eq!(KeyCode::MediaCalc.code(), 0xFB);
    assert!(KeyCode::LeftControl.is_modifier());
    assert!(KeyCode::RightGUI.is_modifier());
    assert!(!KeyCode::MediaPlayPause.is_modifier());
    assert!(!KeyCode::A.is_modifier());
    assert_eq!(Modifiers::from(KeyCode::LeftControl).bits(), CTRL_LEFT);
    assert_eq!(Modifiers::from(KeyCode::LeftShift).bits(), SHIFT_LEFT);
    assert_eq!(Modifiers::from(KeyCode::RightGUI).bits(), GUI_RIGHT);
    assert_eq!(Modifiers::from(KeyCode::A).bits(), 0);
    assert_eq!(Modifiers::empty().union(Modifiers::from_bits_truncate(0x81)).bits(), 0x81);
}

#[test]
fn layout_splits_modifiers_from_keys() {
    let layout = BasicKeyboardLayout::new([
        KeyAction::Key { code: KeyCode::A },
        KeyAction::Key { code: KeyCode::LeftShift },
        KeyAction::Key { code: KeyCode::B },
        KeyAction::Key { code: KeyCode::RightGUI },
    ]);
    let down = KeyState { pressed: true };
    let up = KeyState { pressed: false };
    let state = layout.state(&[down, down, down, up]);
    assert_eq!(state.modifiers.bits(), SHIFT_LEFT);
    assert_eq!(state.keycodes, vec![KeyCode::A, KeyCode::B]);
    let state = layout.state(&[up, down, up, down]);
    assert_eq!(state.modifiers.bits(), SHIFT_LEFT | GUI_RIGHT);
    assert!(state.keycodes.is_empty());
}

#[test]
fn matrix_keyboard_debounces_then_maps() {
    let layout = BasicKeyboardLayout::new([
        KeyAction::Key { code: KeyCode::Q },
        KeyAction::Key { code: KeyCode::LeftControl },
    ]);
    let mut keyboard = MatrixKeyboard::new(DirectPinMatrix::<2>::new(), layout);
    for _ in 0..4 {
        keyboard.update(&[false, false]).unwrap();
    }
    let state = keyboard.state().unwrap();
    assert!(!state.keys[0].pressed && !state.keys[1].pressed);
    keyboard.update(&[false, false]).unwrap();
    let state = keyboard.state().unwrap();
    assert!(state.keys[0].pressed && state.keys[1].pressed);
    assert_eq!(state.modifiers.bits(), CTRL_LEFT);
    assert_eq!(state.keycodes, vec![KeyCode::Q]);
}

#[test]
fn direct_matrix_reports_released_keys_at_rest() {
    let matrix = DirectPinMatrix::<3>::new();
    let keys = matrix.keys().unwrap();
    assert!(keys.iter().all(|k| !k.pressed));
}

#[test]
fn hid_report_carries_up_to_six_keys() {
    let state = KeyboardState {
        modifiers: Modifiers::from(KeyCode::LeftAlt),
        keycodes: vec![KeyCode::A, KeyCode::Z],
        keys: [KeyState { pressed: true }; 3],
    };
    let report = get_hid_report(&state);
    assert_eq!(report.modifier, Modifiers::from(KeyCode::LeftAlt).bits());
    assert_eq!(report.keycodes, [0x04, 0x1D, 0, 0, 0, 0]);
    assert_eq!((report.leds, report.reserved), (0, 0));
}

#[test]
fn hid_report_rolls_over_past_six_keys() {
    let state = KeyboardState {
        modifiers: Modifiers::empty(),
        keycodes: vec![KeyCode::A; 7],
        keys: [KeyState { pressed: true }; 7],
    };
    assert_eq!(get_hid_report(&state).keycodes, [0x01; 6]);
    let state = KeyboardState {
        modifiers: Modifiers::empty(),
        keycodes: vec![KeyCode::B; 6],
        keys: [KeyState { pressed: true }; 7],
    };
    assert_eq!(get_hid_report(&state).keycodes, [0x05; 6]);
}

#[test]
fn flasher_lights_and_counts_presses() {
    let mut flasher = LedFlasher::new();
    assert_eq!(flasher.update(false), Some(false));
    assert_eq!(flasher.update(true), Some(true));
    assert_eq!(flasher.update(true), None);
    assert_eq!(flasher.update(false), Some(false));
    assert_eq!(flasher.update(true), Some(true));
}
