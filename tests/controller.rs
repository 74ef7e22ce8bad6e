use macropad::keymap::{Action, AppAction, KeyState};
use macropad::keypad::KeypadController;
use macropad::models::{leds_byte, ApplicationModel, ApplicationView, KeypadModel, MenuState, Overlay, KEY_COUNT};
use macropad::schedule::{ApplicationController, DisplayController, DisplayModel, PeriodicTimer};
use usbd_human_interface_device::page::Keyboard;

const MS: u64 = 1_000;

fn pins_with_low(slot: Option<usize>) -> [bool; KEY_COUNT] {
    let mut pins = [true; KEY_COUNT];
    if let Some(i) = slot {
        pins[i] = false;
    }
    pins
}

#[test]
fn pressing_slot_nine_reports_keypad_zero_while_held() {
    let mut app = ApplicationController::new(0);
    let held = pins_with_low(Some(9));
    let released = pins_with_low(None);
    let mut reports = Vec::new();
    let mut t = 0;
    while t < 100 * MS {
        t += MS;
        let raw = if t <= 41 * MS { held } else { released };
        let out = app.poll(t, &raw);
        if let Some(k) = out.keypad {
            assert!(!k.enter_bootloader);
            reports.push((t, k.keys));
        }
    }
    assert_eq!(reports.len(), 5);
    assert_eq!(reports[0], (20 * MS, vec![Keyboard::Keypad0]));
    assert_eq!(reports[1], (40 * MS, vec![Keyboard::Keypad0]));
    assert_eq!(reports[2], (60 * MS, vec![]));
    assert_eq!(reports[3], (80 * MS, vec![]));
    assert_eq!(reports[4], (100 * MS, vec![]));
    assert_eq!(app.key_model().key_states()[9], KeyState::Up);
}

#[test]
fn key_state_follows_five_scans() {
    let mut app = ApplicationController::new(0);
    let held = pins_with_low(Some(9));
    for n in 1..=4u64 {
        app.poll(n * MS, &held);
    }
    // Four low samples: the next mapping tick would still read the key as up.
    let mut probe = ApplicationController::new(0);
    for n in 1..=4u64 {
        probe.poll(n * MS, &held);
    }
    let out = probe.poll(20 * MS, &pins_with_low(None));
    assert_eq!(out.keypad.unwrap().keys, Vec::<Keyboard>::new());
    // The fifth low sample makes it down.
    app.poll(5 * MS, &held);
    let out = app.poll(20 * MS, &held);
    assert_eq!(out.keypad.unwrap().keys, vec![Keyboard::Keypad0]);
    assert_eq!(app.key_model().key_states()[9], KeyState::Down);
}

#[test]
fn mapping_reads_the_scan_of_the_same_poll() {
    let mut app = ApplicationController::new(0);
    let held = pins_with_low(Some(9));
    // Polls at 16, 17, 18 and 19 ms carry four low samples.
    for n in 16..=19u64 {
        let out = app.poll(n * MS, &held);
        assert!(out.keypad.is_none());
    }
    // At 20 ms the scan and the mapping tick are both due: the fifth low
    // sample is shifted in first, so the mapper already sees the key down.
    let out = app.poll(20 * MS, &held);
    assert_eq!(out.keypad.unwrap().keys, vec![Keyboard::Keypad0]);
}

#[test]
fn nothing_runs_before_its_period() {
    let mut app = ApplicationController::new(0);
    let out = app.poll(999, &pins_with_low(Some(9)));
    assert!(out.keypad.is_none());
    assert!(out.display.is_none());
    let out = app.poll(16_667, &pins_with_low(Some(9)));
    assert!(out.keypad.is_none());
    assert!(out.display.is_some());
}

#[test]
fn display_frames_follow_the_model() {
    let mut app = ApplicationController::new(0);
    let out = app.poll(17 * MS, &pins_with_low(None));
    let frame = out.display.unwrap();
    assert!(!frame.screensaver);
    assert_eq!(frame.contrast, 0xFF);
    assert_eq!(frame.view, ApplicationView::Keypad);
    assert!(!frame.timing_overlay);
    assert_eq!(frame.frame, 1);
}

#[test]
fn hold_of_bootloader_key_asks_once() {
    let mut keypad = KeypadController::new();
    let mut key_model = KeypadModel::new(0);
    let mut app_model = ApplicationModel::default();
    let held = pins_with_low(Some(0));
    let mut asks = Vec::new();
    for n in 1..=40u64 {
        let out = keypad.tick(n * 20 * MS, &held, &mut key_model, &mut app_model);
        asks.push(out.enter_bootloader);
    }
    let first = asks.iter().position(|&b| b).unwrap();
    assert!(first > 0);
    assert_eq!(asks.iter().filter(|&&b| b).count(), 1);
    assert_eq!(app_model.last_actions().as_slice(), &[AppAction::Bootloader]);
}

#[test]
fn timing_overlay_toggles_once_per_hold() {
    let mut keypad = KeypadController::new();
    let mut key_model = KeypadModel::new(0);
    let mut app_model = ApplicationModel::default();
    let held = pins_with_low(Some(2));
    let released = pins_with_low(None);
    let mut t = 0;
    for _ in 0..40 {
        t += 20 * MS;
        keypad.tick(t, &held, &mut key_model, &mut app_model);
    }
    assert_eq!(app_model.active_overlay(), Overlay::ControllerTiming);
    for _ in 0..40 {
        t += 20 * MS;
        keypad.tick(t, &released, &mut key_model, &mut app_model);
    }
    assert_eq!(app_model.active_overlay(), Overlay::ControllerTiming);
    for _ in 0..40 {
        t += 20 * MS;
        keypad.tick(t, &held, &mut key_model, &mut app_model);
    }
    assert_eq!(app_model.active_overlay(), Overlay::Off);
}

#[test]
fn menu_opens_over_the_active_view() {
    let mut keypad = KeypadController::new();
    let mut key_model = KeypadModel::new(0);
    let mut app_model = ApplicationModel::default();
    app_model.set_active_view(ApplicationView::Status);
    let held = pins_with_low(Some(12));
    for n in 1..=40u64 {
        keypad.tick(n * 20 * MS, &held, &mut key_model, &mut app_model);
    }
    assert_eq!(*app_model.menu(), MenuState::Open(ApplicationView::Status));
}

#[test]
fn tap_of_slot_zero_reports_keypad_seven() {
    let mut keypad = KeypadController::new();
    let mut key_model = KeypadModel::new(0);
    let mut app_model = ApplicationModel::default();
    let out = keypad.tick(20 * MS, &pins_with_low(Some(0)), &mut key_model, &mut app_model);
    assert!(out.keys.is_empty());
    assert_eq!(key_model.last_keypress_time(), 20 * MS);
    let out = keypad.tick(140 * MS, &pins_with_low(None), &mut key_model, &mut app_model);
    assert_eq!(out.keys, vec![Keyboard::Keypad7]);
    assert_eq!(key_model.actions().as_slice(), &[Action::Keyboard(Keyboard::Keypad7)]);
    assert_eq!(key_model.last_keypress_time(), 20 * MS);
    assert!(!out.enter_bootloader);
}

#[test]
fn key_states_and_keypress_time_are_recorded() {
    let mut keypad = KeypadController::new();
    let mut key_model = KeypadModel::new(5);
    let mut app_model = ApplicationModel::default();
    keypad.tick(20 * MS, &pins_with_low(None), &mut key_model, &mut app_model);
    assert_eq!(key_model.last_keypress_time(), 5);
    assert_eq!(key_model.key_states(), &[KeyState::Up; KEY_COUNT]);
    keypad.tick(40 * MS, &pins_with_low(Some(4)), &mut key_model, &mut app_model);
    assert_eq!(key_model.last_keypress_time(), 40 * MS);
    assert_eq!(key_model.key_states()[4], KeyState::Down);
    assert_eq!(key_model.actions().as_slice(), &[Action::Keyboard(Keyboard::Keypad5)]);
}

#[test]
fn periodic_timer_catches_up_one_period_at_a_time() {
    let mut timer = PeriodicTimer::start(0, 20);
    assert!(!timer.period_complete(19));
    assert!(timer.period_complete(65));
    assert!(timer.period_complete(65));
    assert!(timer.period_complete(65));
    assert!(!timer.period_complete(65));
    assert!(timer.period_complete(80));
}

#[test]
fn frame_counter_wraps_at_sixty() {
    let mut display = DisplayModel::new();
    let mut last = 0;
    for _ in 0..59 {
        last = display.frame_clounter_get_and_increment();
    }
    assert_eq!(last, 59);
    assert_eq!(display.frame_clounter_get_and_increment(), 0);
    assert_eq!(display.frame_clounter_get_and_increment(), 1);
}

#[test]
fn screensaver_after_a_minute_without_keys() {
    let controller = DisplayController::new();
    let mut display = DisplayModel::new();
    let key_model = KeypadModel::new(1_000);
    let mut app_model = ApplicationModel::default();
    app_model.set_active_overlay(Overlay::ControllerTiming);
    let frame = controller.tick(60_001_000, &mut display, &key_model, &app_model);
    assert!(!frame.screensaver);
    assert_eq!(frame.contrast, 0xFF);
    let frame = controller.tick(60_001_001, &mut display, &key_model, &app_model);
    assert!(frame.screensaver);
    assert_eq!(frame.contrast, 0);
    assert!(frame.timing_overlay);
    assert_eq!(frame.frame, 2);
}

#[test]
fn model_setters_and_getters() {
    let mut app_model = ApplicationModel::default();
    assert_eq!(app_model.active_view(), ApplicationView::Keypad);
    assert_eq!(app_model.active_overlay(), Overlay::Off);
    assert_eq!(*app_model.menu(), MenuState::Closed);
    app_model.set_display_time(1234);
    assert_eq!(app_model.display_time(), 1234);
    app_model.set_last_actions(&[AppAction::ShowMenu, AppAction::ShowTimings]);
    assert_eq!(app_model.last_actions_slice(), &[AppAction::ShowMenu, AppAction::ShowTimings]);
    let mut key_model = KeypadModel::new(0);
    key_model.set_keypad_time(77);
    assert_eq!(key_model.keypad_time(), 77);
    key_model.set_actions(&[Action::App(AppAction::ShowMenu)]);
    assert_eq!(key_model.actions_slice(), &[Action::App(AppAction::ShowMenu)]);
}

#[test]
fn keyboard_leds_pack_into_one_byte() {
    assert_eq!(leds_byte(false, false, false, false, false), 0);
    assert_eq!(leds_byte(true, false, false, false, false), 1);
    assert_eq!(leds_byte(false, true, true, false, false), 6);
    assert_eq!(leds_byte(true, true, true, true, true), 31);
}
