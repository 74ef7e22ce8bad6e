//! The state shared between the controllers: what the keypad last saw and
//! emitted, and what the application shows.

use crate::keymap::{Action, AppAction, KeyMapper, KeyState, Modifier, ModifierState, stepped};
use usbd_human_interface_device::page::Keyboard;
use vstd::prelude::*;

verus! {

/// Number of key slots: twelve keys and the encoder's push button.
pub const KEY_COUNT: usize = 13;

/// How many app actions the edge detector remembers.
pub const LAST_ACTIONS_CAPACITY: usize = 16;

/// A fixed-capacity vector, used for the action lists of the models.
#[verifier::external_type_specification]
#[verifier::external_body]
#[verifier::reject_recursive_types(T)]
pub struct ExBoundedVec<T, const N: usize>(heapless::Vec<T, N>);

/// What a list of app actions holds, in order.
pub uninterp spec fn held_app_actions(v: heapless::Vec<AppAction, LAST_ACTIONS_CAPACITY>) -> Seq<AppAction>;

/// What a list of actions holds, in order.
pub uninterp spec fn held_actions(v: heapless::Vec<Action, KEY_COUNT>) -> Seq<Action>;

/// Relies on heapless::Vec::new: the vector starts empty.
#[verifier::external_body]
fn empty_app_actions() -> (r: heapless::Vec<AppAction, LAST_ACTIONS_CAPACITY>)
    ensures
        held_app_actions(r) == Seq::<AppAction>::empty(),
{
    heapless::Vec::new()
}

/// Relies on heapless::Vec::from_slice: it fails when the slice is longer
/// than the capacity, and otherwise holds a copy of the slice.
#[verifier::external_body]
fn app_actions_from_slice(s: &[AppAction]) -> (r: Result<heapless::Vec<AppAction, LAST_ACTIONS_CAPACITY>, ()>)
    ensures
        r is Ok <==> s@.len() <= LAST_ACTIONS_CAPACITY,
        r is Ok ==> held_app_actions(r->Ok_0) == s@,
{
    heapless::Vec::from_slice(s)
}

/// Relies on heapless::Vec::as_slice: the held elements, in order.
#[verifier::external_body]
fn app_actions_slice(v: &heapless::Vec<AppAction, LAST_ACTIONS_CAPACITY>) -> (r: &[AppAction])
    ensures
        r@ == held_app_actions(*v),
{
    v.as_slice()
}

/// Relies on heapless::Vec::new: the vector starts empty.
#[verifier::external_body]
fn empty_actions() -> (r: heapless::Vec<Action, KEY_COUNT>)
    ensures
        held_actions(r) == Seq::<Action>::empty(),
{
    heapless::Vec::new()
}

/// Relies on heapless::Vec::from_slice: it fails when the slice is longer
/// than the capacity, and otherwise holds a copy of the slice.
#[verifier::external_body]
fn actions_from_slice(s: &[Action]) -> (r: Result<heapless::Vec<Action, KEY_COUNT>, ()>)
    ensures
        r is Ok <==> s@.len() <= KEY_COUNT,
        r is Ok ==> held_actions(r->Ok_0) == s@,
{
    heapless::Vec::from_slice(s)
}

/// Relies on heapless::Vec::as_slice: the held elements, in order.
#[verifier::external_body]
fn actions_slice(v: &heapless::Vec<Action, KEY_COUNT>) -> (r: &[Action])
    ensures
        r@ == held_actions(*v),
{
    v.as_slice()
}

/// The keyboard LED state reported by the host, one bit each: num lock,
/// caps lock, scroll lock, compose, kana, from bit 0 up.
pub open spec fn leds_value(num_lock: bool, caps_lock: bool, scroll_lock: bool, compose: bool, kana: bool) -> int {
    (if num_lock { 1int } else { 0int }) + (if caps_lock { 2int } else { 0int }) + (if scroll_lock {
        4int
    } else {
        0int
    }) + (if compose { 8int } else { 0int }) + (if kana { 16int } else { 0int })
}

/// Packs the keyboard LED state reported by the host into one byte.
pub fn leds_byte(num_lock: bool, caps_lock: bool, scroll_lock: bool, compose: bool, kana: bool) -> (r: u8)
    ensures
        r == leds_value(num_lock, caps_lock, scroll_lock, compose, kana),
{
    let mut r: u8 = 0;
    if num_lock {
        r = r + 1;
    }
    if caps_lock {
        r = r + 2;
    }
    if scroll_lock {
        r = r + 4;
    }
    if compose {
        r = r + 8;
    }
    if kana {
        r = r + 16;
    }
    r
}

/// The main content of the display.
#[derive(Clone, Copy, Debug, PartialEq, Eq, Structural)]
pub enum ApplicationView {
    Log,
    Status,
    Keypad,
}

/// What is drawn over the main content.
#[derive(Clone, Copy, Debug, PartialEq, Eq, Structural)]
pub enum Overlay {
    Off,
    ControllerTiming,
}

/// The menu, and the view it was opened from.
#[derive(Clone, Copy, Debug, PartialEq, Eq, Structural)]
pub enum MenuState {
    Closed,
    Open(ApplicationView),
}

/// The abstract state of the application model.
pub struct AppModelView {
    pub active_view: ApplicationView,
    pub active_overlay: Overlay,
    pub display_time: u64,
    pub last_actions: Seq<AppAction>,
    pub menu: MenuState,
}

/// What the display shows, the app actions seen on the last mapping tick
/// (for edge triggering), and how long the last display pass took.
pub struct ApplicationModel {
    active_view: ApplicationView,
    active_overlay: Overlay,
    display_time: u64,
    last_actions: heapless::Vec<AppAction, LAST_ACTIONS_CAPACITY>,
    menu: MenuState,
}

impl View for ApplicationModel {
    type V = AppModelView;

    closed spec fn view(&self) -> AppModelView {
        AppModelView {
            active_view: self.active_view,
            active_overlay: self.active_overlay,
            display_time: self.display_time,
            last_actions: held_app_actions(self.last_actions),
            menu: self.menu,
        }
    }
}

impl Default for ApplicationModel {
    /// The keypad view, no overlay, menu closed, nothing seen yet.
    fn default() -> (r: ApplicationModel)
        ensures
            r@ == (AppModelView {
                active_view: ApplicationView::Keypad,
                active_overlay: Overlay::Off,
                display_time: 0,
                last_actions: Seq::empty(),
                menu: MenuState::Closed,
            }),
    {
        ApplicationModel {
            active_view: ApplicationView::Keypad,
            active_overlay: Overlay::Off,
            menu: MenuState::Closed,
            display_time: 0,
            last_actions: empty_app_actions(),
        }
    }
}

impl ApplicationModel {
    pub fn active_view(&self) -> (r: ApplicationView)
        ensures
            r == self@.active_view,
    {
        self.active_view
    }

    pub fn set_active_view(&mut self, active_view: ApplicationView)
        ensures
            final(self)@ == (AppModelView { active_view, ..old(self)@ }),
    {
        self.active_view = active_view;
    }

    pub fn active_overlay(&self) -> (r: Overlay)
        ensures
            r == self@.active_overlay,
    {
        self.active_overlay
    }

    pub fn set_active_overlay(&mut self, active_overlay: Overlay)
        ensures
            final(self)@ == (AppModelView { active_overlay, ..old(self)@ }),
    {
        self.active_overlay = active_overlay;
    }

    /// Records how long the last display pass took, in clock ticks.
    pub fn set_display_time(&mut self, time: u64)
        ensures
            final(self)@ == (AppModelView { display_time: time, ..old(self)@ }),
    {
        self.display_time = time;
    }

    pub fn display_time(&self) -> (r: u64)
        ensures
            r == self@.display_time,
    {
        self.display_time
    }

    pub fn last_actions(&self) -> (r: &heapless::Vec<AppAction, LAST_ACTIONS_CAPACITY>)
        ensures
            held_app_actions(*r) == self@.last_actions,
    {
        &self.last_actions
    }

    /// The app actions seen on the last mapping tick, in order.
    pub fn last_actions_slice(&self) -> (r: &[AppAction])
        ensures
            r@ == self@.last_actions,
    {
        app_actions_slice(&self.last_actions)
    }

    /// Replaces the remembered app actions.
    pub fn set_last_actions(&mut self, last_actions: &[AppAction])
        requires
            last_actions@.len() <= LAST_ACTIONS_CAPACITY,
        ensures
            final(self)@ == (AppModelView { last_actions: last_actions@, ..old(self)@ }),
    {
        match app_actions_from_slice(last_actions) {
            Ok(v) => self.last_actions = v,
            Err(_) => {},
        }
    }

    pub fn menu(&self) -> (r: &MenuState)
        ensures
            *r == self@.menu,
    {
        &self.menu
    }

    pub fn set_menu(&mut self, menu: MenuState)
        ensures
            final(self)@ == (AppModelView { menu, ..old(self)@ }),
    {
        self.menu = menu;
    }
}

/// The abstract state of the keypad model.
pub struct KeypadModelView {
    pub last_keypress_time: u64,
    pub key_states: Seq<KeyState>,
    pub actions: Seq<Action>,
    pub keypad_time: u64,
    pub slots: Seq<ModifierState>,
}

/// The modifiers of the key slots, in slot order: the keypad's digits, and
/// three tap/hold keys reaching the bootloader, the timing overlay and the
/// menu.
pub open spec fn key_table() -> Seq<Modifier> {
    seq![
        Modifier::TapHold(Action::Keyboard(Keyboard::Keypad7), Action::App(AppAction::Bootloader)),
        Modifier::Single(Action::Keyboard(Keyboard::Keypad8)),
        Modifier::TapHold(Action::Keyboard(Keyboard::Keypad9), Action::App(AppAction::ShowTimings)),
        Modifier::Single(Action::Keyboard(Keyboard::Keypad4)),
        Modifier::Single(Action::Keyboard(Keyboard::Keypad5)),
        Modifier::Single(Action::Keyboard(Keyboard::Keypad6)),
        Modifier::Single(Action::Keyboard(Keyboard::Keypad1)),
        Modifier::Single(Action::Keyboard(Keyboard::Keypad2)),
        Modifier::Single(Action::Keyboard(Keyboard::Keypad3)),
        Modifier::Single(Action::Keyboard(Keyboard::Keypad0)),
        Modifier::Single(Action::Keyboard(Keyboard::KeypadDot)),
        Modifier::Single(Action::Keyboard(Keyboard::KeypadEnter)),
        Modifier::TapHold(
            Action::Keyboard(Keyboard::KeypadNumLockAndClear),
            Action::App(AppAction::ShowMenu),
        ),
    ]
}

/// The keypad's state: the debounced key states and actions of the last
/// mapping tick, the key mapper, when a key was last down, and how long the
/// last mapping pass took.
pub struct KeypadModel {
    last_keypress_time: u64,
    key_states: [KeyState; KEY_COUNT],
    actions: heapless::Vec<Action, KEY_COUNT>,
    keypad_time: u64,
    key_mapper: KeyMapper<KEY_COUNT>,
}

impl View for KeypadModel {
    type V = KeypadModelView;

    closed spec fn view(&self) -> KeypadModelView {
        KeypadModelView {
            last_keypress_time: self.last_keypress_time,
            key_states: self.key_states@,
            actions: held_actions(self.actions),
            keypad_time: self.keypad_time,
            slots: self.key_mapper.slots(),
        }
    }
}

impl KeypadModel {
    pub open spec fn wf(&self) -> bool {
        &&& self@.slots.len() == KEY_COUNT
        &&& self@.key_states.len() == KEY_COUNT
    }

    /// All keys up, no actions, the slots configured from `key_table`, and
    /// `now` as the last key press.
    pub fn new(now: u64) -> (r: KeypadModel)
        ensures
            r.wf(),
            r@.last_keypress_time == now,
            r@.key_states == Seq::new(KEY_COUNT as nat, |i: int| KeyState::Up),
            r@.actions == Seq::<Action>::empty(),
            r@.keypad_time == 0,
            r@.slots == Seq::new(KEY_COUNT as nat, |i: int| ModifierState::initial(key_table()[i])),
    {
        let table: [Modifier; KEY_COUNT] = [
            Modifier::TapHold(Action::Keyboard(Keyboard::Keypad7), Action::App(AppAction::Bootloader)),
            Modifier::Single(Action::Keyboard(Keyboard::Keypad8)),
            Modifier::TapHold(Action::Keyboard(Keyboard::Keypad9), Action::App(AppAction::ShowTimings)),
            Modifier::Single(Action::Keyboard(Keyboard::Keypad4)),
            Modifier::Single(Action::Keyboard(Keyboard::Keypad5)),
            Modifier::Single(Action::Keyboard(Keyboard::Keypad6)),
            Modifier::Single(Action::Keyboard(Keyboard::Keypad1)),
            Modifier::Single(Action::Keyboard(Keyboard::Keypad2)),
            Modifier::Single(Action::Keyboard(Keyboard::Keypad3)),
            Modifier::Single(Action::Keyboard(Keyboard::Keypad0)),
            Modifier::Single(Action::Keyboard(Keyboard::KeypadDot)),
            Modifier::Single(Action::Keyboard(Keyboard::KeypadEnter)),
            Modifier::TapHold(
                Action::Keyboard(Keyboard::KeypadNumLockAndClear),
                Action::App(AppAction::ShowMenu),
            ),
        ];
        assert(table@ =~= key_table());
        let r = KeypadModel {
            last_keypress_time: now,
            key_states: [KeyState::Up; KEY_COUNT],
            actions: empty_actions(),
            keypad_time: 0,
            key_mapper: KeyMapper::new(table),
        };
        assert(r@.key_states =~= Seq::new(KEY_COUNT as nat, |i: int| KeyState::Up));
        r
    }

    /// Replaces the actions of the last mapping tick.
    pub fn set_actions(&mut self, actions: &[Action])
        requires
            actions@.len() <= KEY_COUNT,
        ensures
            final(self)@ == (KeypadModelView { actions: actions@, ..old(self)@ }),
    {
        match actions_from_slice(actions) {
            Ok(v) => self.actions = v,
            Err(_) => {},
        }
    }

    pub fn actions(&self) -> (r: &heapless::Vec<Action, KEY_COUNT>)
        ensures
            held_actions(*r) == self@.actions,
    {
        &self.actions
    }

    /// The actions of the last mapping tick, in slot order.
    pub fn actions_slice(&self) -> (r: &[Action])
        ensures
            r@ == self@.actions,
    {
        actions_slice(&self.actions)
    }

    /// Records how long the last mapping pass took, in clock ticks.
    pub fn set_keypad_time(&mut self, time: u64)
        ensures
            final(self)@ == (KeypadModelView { keypad_time: time, ..old(self)@ }),
    {
        self.keypad_time = time;
    }

    pub fn keypad_time(&self) -> (r: u64)
        ensures
            r == self@.keypad_time,
    {
        self.keypad_time
    }

    pub fn key_states(&self) -> (r: &[KeyState; KEY_COUNT])
        ensures
            r@ == self@.key_states,
    {
        &self.key_states
    }

    pub fn set_key_states(&mut self, key_states: [KeyState; KEY_COUNT])
        ensures
            final(self)@ == (KeypadModelView { key_states: key_states@, ..old(self)@ }),
    {
        self.key_states = key_states;
    }

    pub fn set_last_keypress_time(&mut self, now: u64)
        ensures
            final(self)@ == (KeypadModelView { last_keypress_time: now, ..old(self)@ }),
    {
        self.last_keypress_time = now;
    }

    pub fn last_keypress_time(&self) -> (r: u64)
        ensures
            r == self@.last_keypress_time,
    {
        self.last_keypress_time
    }

    /// One mapping tick of the key mapper over `key_states`, sampled at `now`.
    pub fn map_keys(&mut self, key_states: &[KeyState; KEY_COUNT], now: u64) -> (r: Vec<Action>)
        requires
            old(self).wf(),
        ensures
            final(self).wf(),
            final(self)@ == (KeypadModelView {
                slots: stepped(old(self)@.slots, key_states@, now),
                ..old(self)@
            }),
            r@ == crate::keymap::emitted(old(self)@.slots, key_states@, now),
    {
        self.key_mapper.map(key_states, now)
    }
}

} // verus!
