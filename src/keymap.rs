//! Mapping of debounced key states to actions.
//!
//! Every key slot carries a modifier: a `Single` slot emits its action on
//! each tick the key is down, a `TapHold` slot tells a short press (tap) from
//! a long one (hold) by the time between its down and up transitions.

use usbd_human_interface_device::page::Keyboard;
use vstd::prelude::*;

verus! {

/// A key usage of the USB HID keyboard page. Its variants carry no data, so
/// they are visible to proofs and can be named in the key table.
#[verifier::external_type_specification]
pub struct ExKeyboard(usbd_human_interface_device::page::Keyboard);

/// Longest press, in milliseconds, that still counts as a tap.
pub const HOLD_DURATION_MS: u64 = 500;

/// Clock ticks per millisecond: instants count microseconds.
pub const TICKS_PER_MS: u64 = 1000;

/// The debounced logical state of one key.
#[derive(Clone, Copy, Debug, PartialEq, Eq, Structural, PartialOrd, Ord)]
pub enum KeyState {
    Up,
    Down,
}

/// Actions handled by the firmware itself.
#[derive(Clone, Copy, Debug, PartialEq, Eq, Structural, PartialOrd, Ord)]
pub enum AppAction {
    Bootloader,
    ShowTimings,
    ShowMenu,
}

/// What a key slot emits on a tick.
#[derive(Clone, Copy, Debug, PartialEq, Eq, PartialOrd, Ord)]
pub enum Action {
    App(AppAction),
    Keyboard(Keyboard),
}

/// The mapping policy of one key slot.
#[derive(Clone, Copy, Debug, PartialEq, Eq, PartialOrd, Ord)]
pub enum Modifier {
    Single(Action),
    TapHold(Action, Action),
}

/// Whole milliseconds from `from` to `to`; a clock that stepped back reads as
/// no time at all.
pub open spec fn elapsed_ms(from: u64, to: u64) -> int {
    if from <= to {
        (to - from) / (TICKS_PER_MS as int)
    } else {
        0
    }
}

fn elapsed_millis(from: u64, to: u64) -> (r: u64)
    ensures
        r == elapsed_ms(from, to),
{
    if from <= to {
        (to - from) / TICKS_PER_MS
    } else {
        0
    }
}

/// What a tap/hold slot decides on one sample.
pub enum Decision {
    Nothing,
    Tap,
    Hold,
}

/// Timing state of a tap/hold slot: the instants of its last up and down
/// transitions.
#[derive(Clone, Copy, Debug)]
pub struct TapHoldState {
    up: u64,
    down: u64,
}

impl TapHoldState {
    pub closed spec fn up_at(self) -> u64 {
        self.up
    }

    pub closed spec fn down_at(self) -> u64 {
        self.down
    }

    pub closed spec fn with_up(self, t: u64) -> TapHoldState {
        TapHoldState { up: t, down: self.down }
    }

    pub closed spec fn with_down(self, t: u64) -> TapHoldState {
        TapHoldState { up: self.up, down: t }
    }

    /// The key was last seen down: its down instant is later than its up one.
    pub open spec fn is_held(self) -> bool {
        self.down_at() > self.up_at()
    }

    /// The decision on sampling `key` at `now`.
    pub open spec fn decide(self, key: KeyState, now: u64) -> Decision {
        if self.is_held() {
            let held = elapsed_ms(self.down_at(), now);
            match key {
                KeyState::Down => if held > HOLD_DURATION_MS {
                    Decision::Hold
                } else {
                    Decision::Nothing
                },
                KeyState::Up => if held <= HOLD_DURATION_MS {
                    Decision::Tap
                } else {
                    Decision::Hold
                },
            }
        } else {
            let pressed = elapsed_ms(self.down_at(), self.up_at());
            match key {
                KeyState::Down => Decision::Nothing,
                KeyState::Up => if pressed <= HOLD_DURATION_MS && pressed >= elapsed_ms(
                    self.up_at(),
                    now,
                ) {
                    Decision::Tap
                } else {
                    Decision::Nothing
                },
            }
        }
    }

    /// The timing state after sampling `key` at `now`: a transition records
    /// its instant, a repeated state leaves everything as it was.
    pub open spec fn next(self, key: KeyState, now: u64) -> TapHoldState {
        if !self.is_held() && key == KeyState::Down {
            self.with_down(now)
        } else if self.is_held() && key == KeyState::Up {
            self.with_up(now)
        } else {
            self
        }
    }

    /// The state of a slot that has seen no transition.
    pub closed spec fn new_spec() -> TapHoldState {
        TapHoldState { up: 0, down: 0 }
    }

    /// Both instants at the clock's origin: the key reads as up.
    pub fn new() -> (r: TapHoldState)
        ensures
            r == TapHoldState::new_spec(),
            r.up_at() == 0,
            r.down_at() == 0,
    {
        TapHoldState { up: 0, down: 0 }
    }
}

/// The live state of one key slot: its policy and, for tap/hold, its timing.
#[derive(Clone, Copy, Debug)]
pub enum ModifierState {
    Single(Action),
    TapHold(Action, Action, TapHoldState),
}

/// The action chosen by a decision of a tap/hold slot.
pub open spec fn decision_action(d: Decision, tap: Action, hold: Action) -> Option<Action> {
    match d {
        Decision::Nothing => None,
        Decision::Tap => Some(tap),
        Decision::Hold => Some(hold),
    }
}

impl ModifierState {
    /// The live state a slot starts from.
    pub open spec fn initial(m: Modifier) -> ModifierState {
        match m {
            Modifier::Single(a) => ModifierState::Single(a),
            Modifier::TapHold(tap, hold) => ModifierState::TapHold(
                tap,
                hold,
                TapHoldState::new_spec(),
            ),
        }
    }

    /// The state after sampling `key` at `now`, and what the slot emits.
    pub open spec fn step(self, key: KeyState, now: u64) -> (ModifierState, Option<Action>) {
        match self {
            ModifierState::Single(a) => (self, if key == KeyState::Down {
                Some(a)
            } else {
                None
            }),
            ModifierState::TapHold(tap, hold, s) => (
                ModifierState::TapHold(tap, hold, s.next(key, now)),
                decision_action(s.decide(key, now), tap, hold),
            ),
        }
    }

    /// Feeds one sample of the slot's key, taken at `now`.
    pub fn map(&mut self, key_state: KeyState, now: u64) -> (r: Option<Action>)
        ensures
            (*final(self), r) == old(self).step(key_state, now),
    {
        match self {
            ModifierState::Single(a) => match key_state {
                KeyState::Down => Some(*a),
                KeyState::Up => None,
            },
            ModifierState::TapHold(tap, hold, s) => {
                let last_key_state = if s.down <= s.up {
                    KeyState::Up
                } else {
                    KeyState::Down
                };
                match (last_key_state, key_state) {
                    (KeyState::Up, KeyState::Down) => {
                        s.down = now;
                        None
                    },
                    (KeyState::Down, KeyState::Down) => {
                        if elapsed_millis(s.down, now) > HOLD_DURATION_MS {
                            Some(*hold)
                        } else {
                            None
                        }
                    },
                    (KeyState::Down, KeyState::Up) => {
                        s.up = now;
                        if elapsed_millis(s.down, now) <= HOLD_DURATION_MS {
                            Some(*tap)
                        } else {
                            Some(*hold)
                        }
                    },
                    (KeyState::Up, KeyState::Up) => {
                        let pressed = elapsed_millis(s.down, s.up);
                        if pressed <= HOLD_DURATION_MS && pressed >= elapsed_millis(s.up, now) {
                            Some(*tap)
                        } else {
                            None
                        }
                    },
                }
            },
        }
    }
}

/// A single-action slot keeps no memory: on every sample it emits its action
/// if the key is down and nothing if it is up, and its state never changes.
pub proof fn lemma_single_is_stateless(a: Action, key: KeyState, now: u64)
    ensures
        ModifierState::Single(a).step(key, now) == (ModifierState::Single(a), if key == KeyState::Down {
            Some(a)
        } else {
            None
        }),
{
}

/// A release decides once. The first up sample after a press decides tap if
/// the press lasted at most `HOLD_DURATION_MS` and hold otherwise, and leaves
/// the slot released; any later up sample keeps the timing state as it is
/// and never decides hold. (The clock is taken not to step back before the
/// press.)
pub proof fn lemma_release_decides_once(s: TapHoldState, released: u64, later: u64)
    requires
        s.is_held(),
        s.down_at() <= released,
    ensures
        s.decide(KeyState::Up, released) == if elapsed_ms(s.down_at(), released) <= HOLD_DURATION_MS {
            Decision::Tap
        } else {
            Decision::Hold
        },
        !s.next(KeyState::Up, released).is_held(),
        s.next(KeyState::Up, released).next(KeyState::Up, later) == s.next(KeyState::Up, released),
        s.next(KeyState::Up, released).decide(KeyState::Up, later) != Decision::Hold,
{
}

/// Hold repeats while held: once a press has lasted longer than
/// `HOLD_DURATION_MS`, every further down sample decides hold and keeps the
/// timing state as it is.
pub proof fn lemma_hold_repeats(s: TapHoldState, now: u64)
    requires
        s.is_held(),
        elapsed_ms(s.down_at(), now) > HOLD_DURATION_MS,
    ensures
        s.decide(KeyState::Down, now) == Decision::Hold,
        s.next(KeyState::Down, now) == s,
{
}

/// A press is silent: the down transition records its instant and emits
/// nothing.
pub proof fn lemma_press_is_silent(s: TapHoldState, now: u64)
    requires
        !s.is_held(),
    ensures
        s.decide(KeyState::Down, now) == Decision::Nothing,
        s.next(KeyState::Down, now).down_at() == now,
        s.next(KeyState::Down, now).up_at() == s.up_at(),
{
}

/// Every slot of `slots` stepped on its own key sample, taken at `now`.
pub open spec fn stepped(slots: Seq<ModifierState>, keys: Seq<KeyState>, now: u64) -> Seq<
    ModifierState,
> {
    Seq::new(slots.len(), |i: int| slots[i].step(keys[i], now).0)
}

/// What the slots emit on one tick, in slot order, skipping silent slots.
pub open spec fn emitted(slots: Seq<ModifierState>, keys: Seq<KeyState>, now: u64) -> Seq<Action>
    decreases slots.len(),
{
    if slots.len() == 0 {
        Seq::empty()
    } else {
        let i = slots.len() - 1;
        let earlier = emitted(slots.drop_last(), keys, now);
        match slots[i].step(keys[i], now).1 {
            Some(a) => earlier.push(a),
            None => earlier,
        }
    }
}

/// The live state of `N` key slots, fed the key states of every mapping tick.
pub struct KeyMapper<const N: usize> {
    key_modifiers_states: Vec<ModifierState>,
}

impl<const N: usize> KeyMapper<N> {
    /// The live state of each slot, in slot order.
    pub closed spec fn slots(&self) -> Seq<ModifierState> {
        self.key_modifiers_states@
    }

    /// One slot per modifier, none of them having seen a transition.
    pub fn new(modifiers: [Modifier; N]) -> (r: KeyMapper<N>)
        ensures
            r.slots() == Seq::new(N as nat, |i: int| ModifierState::initial(modifiers@[i])),
    {
        let mut states: Vec<ModifierState> = Vec::new();
        let mut i: usize = 0;
        while i < N
            invariant
                i <= N,
                states@.len() == i,
                forall|j: int|
                    0 <= j < i ==> #[trigger] states@[j] == ModifierState::initial(modifiers@[j]),
            decreases N - i,
        {
            let state = match modifiers[i] {
                Modifier::Single(a) => ModifierState::Single(a),
                Modifier::TapHold(tap, hold) => ModifierState::TapHold(tap, hold, TapHoldState::new()),
            };
            states.push(state);
            i = i + 1;
        }
        let r = KeyMapper { key_modifiers_states: states };
        assert(r.slots() =~= Seq::new(N as nat, |i: int| ModifierState::initial(modifiers@[i])));
        r
    }

    /// One mapping tick: feeds slot `i` the state of key `i`, all sampled at
    /// `now`, and collects what the slots emit, in slot order.
    pub fn map(&mut self, key_states: &[KeyState; N], now: u64) -> (r: Vec<Action>)
        requires
            old(self).slots().len() == N,
        ensures
            final(self).slots() == stepped(old(self).slots(), key_states@, now),
            r@ == emitted(old(self).slots(), key_states@, now),
    {
        let ghost before = self.slots();
        let mut actions: Vec<Action> = Vec::new();
        let mut i: usize = 0;
        while i < N
            invariant
                i <= N,
                before.len() == N,
                self.slots().len() == N,
                forall|j: int| 0 <= j < i ==> #[trigger] self.slots()[j] == before[j].step(key_states@[j], now).0,
                forall|j: int| i <= j < N ==> #[trigger] self.slots()[j] == before[j],
                actions@ == emitted(before.take(i as int), key_states@, now),
            decreases N - i,
        {
            let mut state = self.key_modifiers_states[i];
            let emitted_now = state.map(key_states[i], now);
            self.key_modifiers_states.set(i, state);
            proof {
                let next = before.take(i + 1);
                assert(next.drop_last() =~= before.take(i as int));
                assert(next[i as int] == before[i as int]);
            }
            match emitted_now {
                Some(a) => actions.push(a),
                None => {},
            }
            i = i + 1;
        }
        assert(before.take(N as int) =~= before);
        assert(self.slots() =~= stepped(before, key_states@, now));
        actions
    }
}

} // verus!
