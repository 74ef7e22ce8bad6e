//! A twelve-key numeric keypad reported directly as keyboard usage codes.

use crate::debounce::{DebounceModel, DebouncedPin};
use vstd::prelude::*;

verus! {

/// Number of keys on the keypad.
pub const NUMPAD_KEYS: usize = 12;

/// Number of key codes in a boot keyboard report.
pub const REPORT_KEYS: usize = 6;

/// The usage code of each key, in key order: keypad 7, 8, 9, 4, 5, 6, 1, 2,
/// 3, 0, dot and enter.
pub open spec fn numpad_code(i: int) -> u8 {
    if i == 0 {
        0x5f
    } else if i == 1 {
        0x60
    } else if i == 2 {
        0x61
    } else if i == 3 {
        0x5c
    } else if i == 4 {
        0x5d
    } else if i == 5 {
        0x5e
    } else if i == 6 {
        0x59
    } else if i == 7 {
        0x5a
    } else if i == 8 {
        0x5b
    } else if i == 9 {
        0x62
    } else if i == 10 {
        0x63
    } else {
        0x58
    }
}

fn code_of(i: usize) -> (r: u8)
    requires
        i < NUMPAD_KEYS,
    ensures
        r == numpad_code(i as int),
{
    match i {
        0 => 0x5f,
        1 => 0x60,
        2 => 0x61,
        3 => 0x5c,
        4 => 0x5d,
        5 => 0x5e,
        6 => 0x59,
        7 => 0x5a,
        8 => 0x5b,
        9 => 0x62,
        10 => 0x63,
        _ => 0x58,
    }
}

/// The codes of the pressed keys, in key order.
pub open spec fn pressed_codes(pressed: Seq<bool>) -> Seq<u8>
    decreases pressed.len(),
{
    if pressed.len() == 0 {
        Seq::empty()
    } else {
        let earlier = pressed_codes(pressed.drop_last());
        if pressed.last() {
            earlier.push(numpad_code(pressed.len() - 1))
        } else {
            earlier
        }
    }
}

/// A report: the codes of the first `REPORT_KEYS` pressed keys, in key order,
/// padded with zeros.
pub open spec fn report_of(pressed: Seq<bool>) -> Seq<u8> {
    let codes = pressed_codes(pressed);
    Seq::new(
        REPORT_KEYS as nat,
        |j: int|
            if j < codes.len() {
                codes[j]
            } else {
                0
            },
    )
}

proof fn lemma_pressed_codes_step(pressed: Seq<bool>, i: int)
    requires
        0 <= i < pressed.len(),
    ensures
        pressed_codes(pressed.take(i + 1)) == if pressed[i] {
            pressed_codes(pressed.take(i)).push(numpad_code(i))
        } else {
            pressed_codes(pressed.take(i))
        },
{
    assert(pressed.take(i + 1).drop_last() =~= pressed.take(i));
}

/// Twelve debounced keys wired with pull-ups: a key is pressed while its
/// stable level is low.
pub struct Macropad {
    keys: Vec<DebouncedPin>,
}

impl Macropad {
    pub closed spec fn wf(&self) -> bool {
        &&& self.keys@.len() == NUMPAD_KEYS
        &&& forall|i: int| 0 <= i < NUMPAD_KEYS ==> #[trigger] self.keys@[i].wf()
    }

    /// The debouncer of each key, in key order.
    pub closed spec fn inputs(&self) -> Seq<DebounceModel> {
        Seq::new(NUMPAD_KEYS as nat, |i: int| self.keys@[i]@)
    }

    /// Whether each key is pressed, in key order.
    pub open spec fn pressed(&self) -> Seq<bool> {
        Seq::new(NUMPAD_KEYS as nat, |i: int| !self.inputs()[i].stable)
    }

    /// All keys released, their debouncers resting high.
    pub fn new() -> (r: Macropad)
        ensures
            r.wf(),
            r.inputs() == Seq::new(NUMPAD_KEYS as nat, |i: int| DebounceModel::seeded(true)),
    {
        let mut keys: Vec<DebouncedPin> = Vec::new();
        let mut i: usize = 0;
        while i < NUMPAD_KEYS
            invariant
                i <= NUMPAD_KEYS,
                keys@.len() == i,
                forall|j: int| 0 <= j < i ==> #[trigger] keys@[j].wf(),
                forall|j: int| 0 <= j < i ==> #[trigger] keys@[j]@ == DebounceModel::seeded(true),
            decreases NUMPAD_KEYS - i,
        {
            keys.push(DebouncedPin::new(true));
            i = i + 1;
        }
        let r = Macropad { keys };
        assert(r.inputs() =~= Seq::new(NUMPAD_KEYS as nat, |i: int| DebounceModel::seeded(true)));
        r
    }

    /// Shifts one raw sample of each key's pin level into its debouncer.
    pub fn update(&mut self, samples: &[bool; NUMPAD_KEYS])
        requires
            old(self).wf(),
        ensures
            final(self).wf(),
            final(self).inputs() == Seq::new(
                NUMPAD_KEYS as nat,
                |i: int| old(self).inputs()[i].step(samples@[i]),
            ),
    {
        let ghost before = self.inputs();
        let mut i: usize = 0;
        while i < NUMPAD_KEYS
            invariant
                i <= NUMPAD_KEYS,
                self.keys@.len() == NUMPAD_KEYS,
                forall|j: int| 0 <= j < NUMPAD_KEYS ==> #[trigger] self.keys@[j].wf(),
                forall|j: int| 0 <= j < i ==> #[trigger] self.keys@[j]@ == before[j].step(samples@[j]),
                forall|j: int| i <= j < NUMPAD_KEYS ==> #[trigger] self.keys@[j]@ == before[j],
            decreases NUMPAD_KEYS - i,
        {
            let mut key = self.keys[i];
            key.update(samples[i]);
            self.keys.set(i, key);
            i = i + 1;
        }
        assert(self.inputs() =~= Seq::new(
            NUMPAD_KEYS as nat,
            |i: int| before[i].step(samples@[i]),
        ));
    }

    /// Whether each key is pressed, in key order.
    pub fn get_keys(&self) -> (r: [bool; NUMPAD_KEYS])
        requires
            self.wf(),
        ensures
            r@ == self.pressed(),
    {
        let mut pressed = [false; NUMPAD_KEYS];
        let mut i: usize = 0;
        while i < NUMPAD_KEYS
            invariant
                i <= NUMPAD_KEYS,
                self.wf(),
                pressed@.len() == NUMPAD_KEYS,
                forall|j: int| 0 <= j < i ==> #[trigger] pressed@[j] == self.pressed()[j],
            decreases NUMPAD_KEYS - i,
        {
            pressed[i] = self.keys[i].is_low();
            i = i + 1;
        }
        assert(pressed@ =~= self.pressed());
        pressed
    }

    /// The keyboard report of the pressed keys: the codes of the first
    /// `REPORT_KEYS` of them in key order, then zeros.
    pub fn get_keycodes(&self) -> (r: [u8; REPORT_KEYS])
        requires
            self.wf(),
        ensures
            r@ == report_of(self.pressed()),
    {
        let pressed = self.get_keys();
        let mut keycodes = [0u8; REPORT_KEYS];
        let mut filled: usize = 0;
        let mut i: usize = 0;
        while i < NUMPAD_KEYS
            invariant
                i <= NUMPAD_KEYS,
                pressed@.len() == NUMPAD_KEYS,
                keycodes@.len() == REPORT_KEYS,
                filled == if pressed_codes(pressed@.take(i as int)).len() < REPORT_KEYS {
                    pressed_codes(pressed@.take(i as int)).len()
                } else {
                    REPORT_KEYS as nat
                },
                forall|j: int|
                    0 <= j < REPORT_KEYS ==> #[trigger] keycodes@[j] == if j < pressed_codes(
                        pressed@.take(i as int),
                    ).len() {
                        pressed_codes(pressed@.take(i as int))[j]
                    } else {
                        0
                    },
            decreases NUMPAD_KEYS - i,
        {
            proof {
                lemma_pressed_codes_step(pressed@, i as int);
            }
            if pressed[i] && filled < REPORT_KEYS {
                keycodes[filled] = code_of(i);
                filled = filled + 1;
            }
            i = i + 1;
        }
        assert(pressed@.take(NUMPAD_KEYS as int) =~= pressed@);
        assert(keycodes@ =~= report_of(pressed@));
        keycodes
    }
}

} // verus!
