//! A plain keyboard: a matrix of debounced keys, and a layout that turns the
//! pressed keys into the modifier byte and key codes of a report.

use crate::debounce::{DebounceModel, DebouncedPin};
use crate::keycode::{KeyCode, Modifiers, modifier_bit};
use vstd::prelude::*;

verus! {

/// What a key of a layout does.
#[derive(Clone, Copy, Debug, PartialEq, Eq, Structural)]
pub enum KeyAction {
    Key { code: KeyCode },
}

/// Whether a key of the matrix is pressed.
#[derive(Clone, Copy, Debug, Default, PartialEq, Eq, Structural)]
pub struct KeyState {
    pub pressed: bool,
}

/// A source of key states, refreshed from the pin levels of a scan.
pub trait KeyboardMatrix<const KEY_COUNT: usize> {
    type Error;

    /// Feeds the pin levels of one scan (`true` for high).
    fn update(&mut self, levels: &[bool; KEY_COUNT]) -> Result<(), Self::Error>;

    /// The state of every key.
    fn keys(&self) -> Result<[KeyState; KEY_COUNT], Self::Error>;
}

/// A matrix with one debounced pin per key, wired with pull-ups: a key is
/// pressed while its stable level is low.
pub struct DirectPinMatrix<const N: usize> {
    pins: Vec<DebouncedPin>,
}

impl<const N: usize> DirectPinMatrix<N> {
    #[verifier::type_invariant]
    closed spec fn inv(&self) -> bool {
        &&& self.pins@.len() == N
        &&& forall|i: int| 0 <= i < N ==> #[trigger] self.pins@[i].wf()
    }

    /// The debouncer of each key, in key order.
    pub closed spec fn inputs(&self) -> Seq<DebounceModel> {
        Seq::new(N as nat, |i: int| self.pins@[i]@)
    }

    /// All keys released, their debouncers resting high.
    pub fn new() -> (r: DirectPinMatrix<N>)
        ensures
            r.inputs() == Seq::new(N as nat, |i: int| DebounceModel::seeded(true)),
    {
        let mut pins: Vec<DebouncedPin> = Vec::new();
        let mut i: usize = 0;
        while i < N
            invariant
                i <= N,
                pins@.len() == i,
                forall|j: int| 0 <= j < i ==> #[trigger] pins@[j].wf(),
                forall|j: int| 0 <= j < i ==> #[trigger] pins@[j]@ == DebounceModel::seeded(true),
            decreases N - i,
        {
            pins.push(DebouncedPin::new(true));
            i = i + 1;
        }
        let r = DirectPinMatrix { pins };
        assert(r.inputs() =~= Seq::new(N as nat, |i: int| DebounceModel::seeded(true)));
        r
    }

    /// Shifts one raw level of each key into its debouncer.
    pub fn scan(&mut self, levels: &[bool; N])
        ensures
            final(self).inputs() == Seq::new(N as nat, |i: int| old(self).inputs()[i].step(levels@[i])),
    {
        proof {
            use_type_invariant(&*self);
        }
        let ghost before = self.inputs();
        let mut next: Vec<DebouncedPin> = Vec::new();
        let mut i: usize = 0;
        while i < N
            invariant
                i <= N,
                self.pins@.len() == N,
                forall|j: int| 0 <= j < N ==> #[trigger] self.pins@[j].wf(),
                before == self.inputs(),
                next@.len() == i,
                forall|j: int| 0 <= j < i ==> #[trigger] next@[j].wf(),
                forall|j: int| 0 <= j < i ==> #[trigger] next@[j]@ == before[j].step(levels@[j]),
            decreases N - i,
        {
            let mut pin = self.pins[i];
            pin.update(levels[i]);
            next.push(pin);
            i = i + 1;
        }
        self.pins = next;
        assert(self.inputs() =~= Seq::new(N as nat, |i: int| before[i].step(levels@[i])));
    }

    /// The state of every key: pressed while its stable level is low.
    pub fn pressed(&self) -> (r: [KeyState; N])
        ensures
            forall|i: int| 0 <= i < N ==> #[trigger] r@[i].pressed == !self.inputs()[i].stable,
    {
        proof {
            use_type_invariant(self);
        }
        let mut keystates = [KeyState { pressed: false }; N];
        let mut i: usize = 0;
        while i < N
            invariant
                i <= N,
                self.pins@.len() == N,
                keystates@.len() == N,
                forall|j: int| 0 <= j < i ==> #[trigger] keystates@[j].pressed == !self.inputs()[j].stable,
            decreases N - i,
        {
            keystates[i] = KeyState { pressed: self.pins[i].is_low() };
            i = i + 1;
        }
        keystates
    }
}

impl<const N: usize> KeyboardMatrix<N> for DirectPinMatrix<N> {
    type Error = ();

    fn update(&mut self, levels: &[bool; N]) -> Result<(), ()> {
        self.scan(levels);
        Ok(())
    }

    fn keys(&self) -> Result<[KeyState; N], ()> {
        Ok(self.pressed())
    }
}

/// The key is one of the eight modifiers.
pub open spec fn is_modifier_key(code: KeyCode) -> bool {
    KeyCode::LeftControl.usage() <= code.usage() <= KeyCode::RightGUI.usage()
}

/// The modifier byte of the pressed modifier keys among the first `n` keys.
pub open spec fn layout_modifiers(keymap: Seq<KeyAction>, keys: Seq<KeyState>, n: int) -> u8
    decreases n,
{
    if n <= 0 {
        0
    } else {
        let earlier = layout_modifiers(keymap, keys, n - 1);
        match keymap[n - 1] {
            KeyAction::Key { code } => if keys[n - 1].pressed && is_modifier_key(code) {
                earlier | modifier_bit(code)
            } else {
                earlier
            },
        }
    }
}

/// The codes of the pressed keys among the first `n` that are not modifiers,
/// in key order.
pub open spec fn layout_keycodes(keymap: Seq<KeyAction>, keys: Seq<KeyState>, n: int) -> Seq<KeyCode>
    decreases n,
{
    if n <= 0 {
        Seq::empty()
    } else {
        let earlier = layout_keycodes(keymap, keys, n - 1);
        match keymap[n - 1] {
            KeyAction::Key { code } => if keys[n - 1].pressed && !is_modifier_key(code) {
                earlier.push(code)
            } else {
                earlier
            },
        }
    }
}

/// What a layout makes of the pressed keys.
pub struct KeyboardLayoutState {
    pub modifiers: Modifiers,
    pub keycodes: Vec<KeyCode>,
}

/// Turns key states into the content of a report.
pub trait KeyboardLayout<const N: usize> {
    fn state(&self, keys: &[KeyState; N]) -> KeyboardLayoutState;
}

/// A layout with one fixed action per key.
pub struct BasicKeyboardLayout<const N: usize> {
    keymap: [KeyAction; N],
}

impl<const N: usize> BasicKeyboardLayout<N> {
    pub closed spec fn keymap(&self) -> Seq<KeyAction> {
        self.keymap@
    }

    pub fn new(keymap: [KeyAction; N]) -> (r: BasicKeyboardLayout<N>)
        ensures
            r.keymap() == keymap@,
    {
        BasicKeyboardLayout { keymap }
    }

    /// The modifier byte of the pressed modifier keys, and the codes of the
    /// other pressed keys in key order.
    pub fn layout_state(&self, keys: &[KeyState; N]) -> (r: KeyboardLayoutState)
        ensures
            r.modifiers.value() == layout_modifiers(self.keymap(), keys@, N as int),
            r.keycodes@ == layout_keycodes(self.keymap(), keys@, N as int),
    {
        let mut modifiers = Modifiers::empty();
        let mut keycodes: Vec<KeyCode> = Vec::new();
        let mut i: usize = 0;
        while i < N
            invariant
                i <= N,
                modifiers.value() == layout_modifiers(self.keymap(), keys@, i as int),
                keycodes@ == layout_keycodes(self.keymap(), keys@, i as int),
            decreases N - i,
        {
            if keys[i].pressed {
                match self.keymap[i] {
                    KeyAction::Key { code } => {
                        if code.is_modifier() {
                            modifiers = modifiers.union(Modifiers::from(code));
                        } else {
                            keycodes.push(code);
                        }
                    },
                }
            }
            i = i + 1;
        }
        KeyboardLayoutState { modifiers, keycodes }
    }
}

impl<const N: usize> KeyboardLayout<N> for BasicKeyboardLayout<N> {
    fn state(&self, keys: &[KeyState; N]) -> KeyboardLayoutState {
        self.layout_state(keys)
    }
}

/// The state of a keyboard: the report content and the key states it came
/// from.
pub struct KeyboardState<const KEY_COUNT: usize> {
    pub modifiers: Modifiers,
    pub keycodes: Vec<KeyCode>,
    pub keys: [KeyState; KEY_COUNT],
}

/// A keyboard made of a matrix and a layout.
pub struct MatrixKeyboard<KM, KL, const KEY_COUNT: usize> {
    matrix: KM,
    layout: KL,
}

impl<KM: KeyboardMatrix<KEY_COUNT>, KL: KeyboardLayout<KEY_COUNT>, const KEY_COUNT: usize> MatrixKeyboard<
    KM,
    KL,
    KEY_COUNT,
> {
    pub closed spec fn parts(&self) -> (KM, KL) {
        (self.matrix, self.layout)
    }

    pub fn new(matrix: KM, layout: KL) -> (r: MatrixKeyboard<KM, KL, KEY_COUNT>)
        ensures
            r.parts() == (matrix, layout),
    {
        MatrixKeyboard { matrix, layout }
    }

    /// Feeds the pin levels of one scan to the matrix.
    pub fn update(&mut self, levels: &[bool; KEY_COUNT]) -> (r: Result<(), KM::Error>)
        ensures
            final(self).parts().1 == old(self).parts().1,
    {
        self.matrix.update(levels)
    }

    /// The key states of the matrix and what the layout makes of them.
    pub fn state(&self) -> Result<KeyboardState<KEY_COUNT>, KM::Error> {
        match self.matrix.keys() {
            Ok(keys) => {
                let layout_state = self.layout.state(&keys);
                Ok(KeyboardState { modifiers: layout_state.modifiers, keycodes: layout_state.keycodes, keys })
            },
            Err(e) => Err(e),
        }
    }
}

/// A boot keyboard report.
#[derive(Clone, Copy, Debug, PartialEq, Eq)]
pub struct KeyboardReport {
    pub modifier: u8,
    pub leds: u8,
    pub reserved: u8,
    pub keycodes: [u8; 6],
}

/// The usage code that fills a report holding more keys than it has room
/// for.
pub const ERROR_ROLL_OVER: u8 = 0x01;

/// The key codes of a report: the usage codes of `keycodes` padded with
/// zeros, or all `ERROR_ROLL_OVER` when there are more than six.
pub open spec fn report_keycodes(keycodes: Seq<KeyCode>) -> Seq<u8> {
    Seq::new(
        6,
        |j: int|
            if keycodes.len() > 6 {
                ERROR_ROLL_OVER
            } else if j < keycodes.len() {
                keycodes[j].usage()
            } else {
                0
            },
    )
}

/// The report of a keyboard state: its modifier byte and up to six key codes.
pub fn get_hid_report<const N: usize>(state: &KeyboardState<N>) -> (r: KeyboardReport)
    ensures
        r.modifier == state.modifiers.value(),
        r.leds == 0,
        r.reserved == 0,
        r.keycodes@ == report_keycodes(state.keycodes@),
{
    let mut keycodes: [u8; 6] = [0; 6];
    if state.keycodes.len() > 6 {
        keycodes = [ERROR_ROLL_OVER; 6];
    } else {
        let mut i: usize = 0;
        while i < state.keycodes.len()
            invariant
                i <= state.keycodes@.len() <= 6,
                keycodes@.len() == 6,
                forall|j: int| 0 <= j < i ==> #[trigger] keycodes@[j] == state.keycodes@[j].usage(),
                forall|j: int| i <= j < 6 ==> #[trigger] keycodes@[j] == 0,
            decreases state.keycodes@.len() - i,
        {
            keycodes[i] = state.keycodes[i].code();
            i = i + 1;
        }
    }
    assert(keycodes@ =~= report_keycodes(state.keycodes@));
    KeyboardReport { modifier: state.modifiers.bits(), leds: 0, reserved: 0, keycodes }
}

} // verus!
