//! Debouncing of bi-state inputs.
//!
//! Each input keeps a shift register of its most recent raw samples. The
//! stable level moves only when the whole window of `DEBOUNCE_DEPTH` samples
//! agrees, so isolated bounces never reach the logic above.

use vstd::prelude::*;

verus! {

/// Number of consecutive agreeing samples needed to move the stable level.
pub const DEBOUNCE_DEPTH: usize = 5;

/// Bits of the history register above the sample window; always set once a
/// sample has been shifted in.
const STABLE_MASK: u8 = 0b1110_0000;

/// A three-way view of a debounced input.
#[derive(Clone, Copy, Debug, PartialEq, Eq, Structural)]
pub enum DebouncerState {
    Low,
    High,
    Unknown,
}

/// The abstract state of a debouncer: the stable level, and the window of the
/// last `DEBOUNCE_DEPTH` samples, newest first. Before any sample arrives the
/// window is filled with the seeded level.
pub struct DebounceModel {
    pub stable: bool,
    pub window: Seq<bool>,
}

/// Every element of `w` is `v`.
pub open spec fn all_equal(w: Seq<bool>, v: bool) -> bool {
    forall|j: int| 0 <= j < w.len() ==> w[j] == v
}

impl DebounceModel {
    /// The state of a fresh debouncer seeded at `level`.
    pub open spec fn seeded(level: bool) -> DebounceModel {
        DebounceModel { stable: level, window: Seq::new(DEBOUNCE_DEPTH as nat, |j: int| level) }
    }

    /// The state after shifting in one raw sample.
    pub open spec fn step(self, sample: bool) -> DebounceModel {
        let w = seq![sample] + self.window.take(DEBOUNCE_DEPTH - 1);
        DebounceModel {
            stable: if all_equal(w, true) {
                true
            } else if all_equal(w, false) {
                false
            } else {
                self.stable
            },
            window: w,
        }
    }

    /// The state after feeding `samples`, oldest first, to a debouncer
    /// seeded at `level`.
    pub open spec fn run(level: bool, samples: Seq<bool>) -> DebounceModel
        decreases samples.len(),
    {
        if samples.len() == 0 {
            DebounceModel::seeded(level)
        } else {
            DebounceModel::run(level, samples.drop_last()).step(samples.last())
        }
    }
}

spec fn bit_set(h: u8, mask: u8) -> bool {
    h & mask == mask
}

/// The window after `samples` holds the newest samples, newest first, padded
/// with the seeded level while fewer than `DEBOUNCE_DEPTH` have arrived.
pub proof fn lemma_run_window(level: bool, samples: Seq<bool>)
    ensures
        DebounceModel::run(level, samples).window.len() == DEBOUNCE_DEPTH,
        forall|j: int|
            0 <= j < DEBOUNCE_DEPTH ==> #[trigger] DebounceModel::run(level, samples).window[j] == if j
                < samples.len() {
                samples[samples.len() - 1 - j]
            } else {
                level
            },
    decreases samples.len(),
{
    if samples.len() > 0 {
        let prev = samples.drop_last();
        lemma_run_window(level, prev);
        let w = DebounceModel::run(level, samples).window;
        assert forall|j: int| 0 <= j < DEBOUNCE_DEPTH implies #[trigger] w[j] == if j < samples.len() {
            samples[samples.len() - 1 - j]
        } else {
            level
        } by {
            if j > 0 {
                assert(w[j] == DebounceModel::run(level, prev).window[j - 1]);
            }
        }
    }
}

/// While fewer than `DEBOUNCE_DEPTH` samples have arrived the stable level is
/// the seeded one.
proof fn lemma_warm_up_keeps_seed(level: bool, samples: Seq<bool>)
    requires
        samples.len() < DEBOUNCE_DEPTH,
    ensures
        DebounceModel::run(level, samples).stable == level,
    decreases samples.len(),
{
    if samples.len() > 0 {
        let prev = samples.drop_last();
        lemma_warm_up_keeps_seed(level, prev);
        lemma_run_window(level, samples);
        let w = DebounceModel::run(level, samples).window;
        assert(w[DEBOUNCE_DEPTH - 1] == level);
    }
}

/// Hysteresis: over any sequence of raw samples, the stable level changes at
/// sample `i` only if that sample and the `DEBOUNCE_DEPTH - 1` before it all
/// carry the new level.
pub proof fn lemma_flip_needs_full_window(level: bool, samples: Seq<bool>, i: int)
    requires
        0 <= i < samples.len(),
        DebounceModel::run(level, samples.take(i + 1)).stable != DebounceModel::run(
            level,
            samples.take(i),
        ).stable,
    ensures
        i >= DEBOUNCE_DEPTH - 1,
        forall|j: int|
            i - (DEBOUNCE_DEPTH - 1) <= j <= i ==> samples[j] == DebounceModel::run(
                level,
                samples.take(i + 1),
            ).stable,
{
    let s = samples.take(i + 1);
    assert(s.drop_last() =~= samples.take(i));
    let v = DebounceModel::run(level, s).stable;
    let w = DebounceModel::run(level, s).window;
    lemma_run_window(level, s);
    assert(all_equal(w, v));
    if i < DEBOUNCE_DEPTH - 1 {
        lemma_warm_up_keeps_seed(level, samples.take(i));
        assert(w[DEBOUNCE_DEPTH - 1] == level);
    }
    assert forall|j: int| i - (DEBOUNCE_DEPTH - 1) <= j <= i implies samples[j] == v by {
        assert(w[i - j] == s[i - (i - j)]);
    }
}

/// A single sample whose predecessor differs from it never moves the stable
/// level: a glitch between opposite samples is filtered out.
pub proof fn lemma_glitch_is_ignored(level: bool, samples: Seq<bool>, i: int)
    requires
        0 < i < samples.len(),
        samples[i - 1] != samples[i],
    ensures
        DebounceModel::run(level, samples.take(i + 1)).stable == DebounceModel::run(
            level,
            samples.take(i),
        ).stable,
{
    if DebounceModel::run(level, samples.take(i + 1)).stable != DebounceModel::run(
        level,
        samples.take(i),
    ).stable {
        lemma_flip_needs_full_window(level, samples, i);
    }
}

/// A debounced digital input, fed one raw sample per scan tick.
#[derive(Clone, Copy)]
pub struct DebouncedPin {
    last: bool,
    history: u8,
}

impl View for DebouncedPin {
    type V = DebounceModel;

    closed spec fn view(&self) -> DebounceModel {
        DebounceModel {
            stable: self.last,
            window: seq![
                bit_set(self.history, 1),
                bit_set(self.history, 2),
                bit_set(self.history, 4),
                bit_set(self.history, 8),
                bit_set(self.history, 16),
            ],
        }
    }
}

impl DebouncedPin {
    /// The register is either the seeded all-low value or carries the mask
    /// bits, and the stable level agrees with a window that is all one level.
    pub closed spec fn wf(&self) -> bool {
        &&& (self.history & STABLE_MASK == STABLE_MASK || self.history == 0)
        &&& (self.history == 0xFF ==> self.last)
        &&& ((self.history == STABLE_MASK || self.history == 0) ==> !self.last)
    }

    /// A debouncer whose stable level starts at `default_state`, as if that
    /// level had already been sampled `DEBOUNCE_DEPTH` times.
    pub fn new(default_state: bool) -> (r: DebouncedPin)
        ensures
            r.wf(),
            r@ == DebounceModel::seeded(default_state),
    {
        let r = DebouncedPin { last: default_state, history: if default_state { u8::MAX } else { 0 } };
        proof {
            let h = r.history;
            if default_state {
                assert(h & 1 == 1 && h & 2 == 2 && h & 4 == 4 && h & 8 == 8 && h & 16 == 16
                    && h & 0xE0 == 0xE0) by (bit_vector)
                    requires h == 0xFFu8;
            } else {
                assert(h & 1 != 1 && h & 2 != 2 && h & 4 != 4 && h & 8 != 8 && h & 16 != 16)
                    by (bit_vector)
                    requires h == 0u8;
            }
            assert(r@.window =~= DebounceModel::seeded(default_state).window);
        }
        r
    }

    /// Shifts in one raw sample (`true` for a high level).
    pub fn update(&mut self, sample: bool)
        requires
            old(self).wf(),
        ensures
            final(self).wf(),
            final(self)@ == old(self)@.step(sample),
    {
        let ghost before = self@;
        let h: u8 = self.history;
        let b: u8 = if sample { 1 } else { 0 };
        let n: u8 = (h << 1u8) | b | STABLE_MASK;
        proof {
            assert(
                (n & 0xE0 == 0xE0) && n != 0
                && (n & 1 == 1 <==> b == 1)
                && (n & 2 == 2 <==> h & 1 == 1)
                && (n & 4 == 4 <==> h & 2 == 2)
                && (n & 8 == 8 <==> h & 4 == 4)
                && (n & 16 == 16 <==> h & 8 == 8)
                && (n == 0xFF <==> (n & 1 == 1 && n & 2 == 2 && n & 4 == 4 && n & 8 == 8 && n & 16 == 16))
                && (n == 0xE0 <==> (n & 1 != 1 && n & 2 != 2 && n & 4 != 4 && n & 8 != 8 && n & 16 != 16))
            ) by (bit_vector)
                requires
                    n == (h << 1u8) | b | 0xE0u8,
                    b == 0u8 || b == 1u8,
            ;
        }
        self.history = n;
        self.last = if n == u8::MAX {
            true
        } else if n == STABLE_MASK {
            false
        } else {
            self.last
        };
        proof {
            let expect = before.step(sample);
            assert(self@.window =~= expect.window);
            assert(all_equal(self@.window, true) <==> n == 0xFF);
            assert(all_equal(self@.window, false) <==> n == 0xE0);
            assert(n & STABLE_MASK == STABLE_MASK);
        }
    }

    /// The stable level is high.
    pub fn is_high(&self) -> (r: bool)
        ensures
            r == self@.stable,
    {
        self.last
    }

    /// The stable level is low.
    pub fn is_low(&self) -> (r: bool)
        ensures
            r == !self@.stable,
    {
        !self.last
    }
}

/// How an input is wired: with a pull-up it idles high, with a pull-down low.
#[derive(Clone, Copy, Debug, PartialEq, Eq, Structural)]
pub enum Pull {
    Up,
    Down,
}

/// The level an input rests at when nothing drives it.
pub open spec fn idle_level(pull: Pull) -> bool {
    pull == Pull::Up
}

/// A debounced input seeded from its wiring rather than from a given level.
#[derive(Clone, Copy)]
pub struct DebouncedInputPin {
    pin: DebouncedPin,
}

impl View for DebouncedInputPin {
    type V = DebounceModel;

    closed spec fn view(&self) -> DebounceModel {
        self.pin@
    }
}

impl DebouncedInputPin {
    pub closed spec fn wf(&self) -> bool {
        self.pin.wf()
    }

    /// A debouncer resting at the idle level of an input wired with `pull`.
    pub fn new(pull: Pull) -> (r: DebouncedInputPin)
        ensures
            r.wf(),
            r@ == DebounceModel::seeded(idle_level(pull)),
    {
        let level = match pull {
            Pull::Up => true,
            Pull::Down => false,
        };
        DebouncedInputPin { pin: DebouncedPin::new(level) }
    }

    /// Shifts in one raw sample (`true` for a high level).
    pub fn update(&mut self, sample: bool)
        requires
            old(self).wf(),
        ensures
            final(self).wf(),
            final(self)@ == old(self)@.step(sample),
    {
        self.pin.update(sample);
    }

    /// The stable level is high.
    pub fn is_high(&self) -> (r: bool)
        ensures
            r == self@.stable,
    {
        self.pin.is_high()
    }

    /// The stable level is low.
    pub fn is_low(&self) -> (r: bool)
        ensures
            r == !self@.stable,
    {
        self.pin.is_low()
    }
}

/// The debouncers of all `N` physical inputs, sampled together on each scan
/// tick.
pub struct DebouncedInputArray<const N: usize> {
    pins: Vec<DebouncedInputPin>,
}

impl<const N: usize> DebouncedInputArray<N> {
    pub closed spec fn wf(&self) -> bool {
        &&& self.pins@.len() == N
        &&& forall|i: int| 0 <= i < N ==> #[trigger] self.pins@[i].wf()
    }

    /// The abstract state of each input, in slot order.
    pub closed spec fn inputs(&self) -> Seq<DebounceModel> {
        Seq::new(N as nat, |i: int| self.pins@[i]@)
    }

    /// The stable level of each input, in slot order.
    pub open spec fn levels(&self) -> Seq<bool> {
        Seq::new(N as nat, |i: int| self.inputs()[i].stable)
    }

    /// One debouncer per input, each resting at the idle level of its wiring.
    pub fn new(pulls: &[Pull; N]) -> (r: DebouncedInputArray<N>)
        ensures
            r.wf(),
            r.inputs() == Seq::new(N as nat, |i: int| DebounceModel::seeded(idle_level(pulls@[i]))),
    {
        let mut pins: Vec<DebouncedInputPin> = Vec::new();
        let mut i: usize = 0;
        while i < N
            invariant
                i <= N,
                pins@.len() == i,
                forall|j: int| 0 <= j < i ==> #[trigger] pins@[j].wf(),
                forall|j: int|
                    0 <= j < i ==> #[trigger] pins@[j]@ == DebounceModel::seeded(idle_level(pulls@[j])),
            decreases N - i,
        {
            pins.push(DebouncedInputPin::new(pulls[i]));
            i = i + 1;
        }
        let r = DebouncedInputArray { pins };
        assert(r.inputs() =~= Seq::new(N as nat, |i: int| DebounceModel::seeded(idle_level(pulls@[i]))));
        r
    }

    /// The scan tick: shifts one raw sample into every input's debouncer.
    pub fn tick(&mut self, samples: &[bool; N])
        requires
            old(self).wf(),
        ensures
            final(self).wf(),
            final(self).inputs() == Seq::new(N as nat, |i: int| old(self).inputs()[i].step(samples@[i])),
    {
        let ghost before = self.inputs();
        let mut i: usize = 0;
        while i < N
            invariant
                i <= N,
                self.pins@.len() == N,
                forall|j: int| 0 <= j < N ==> #[trigger] self.pins@[j].wf(),
                forall|j: int| 0 <= j < i ==> #[trigger] self.pins@[j]@ == before[j].step(samples@[j]),
                forall|j: int| i <= j < N ==> #[trigger] self.pins@[j]@ == before[j],
            decreases N - i,
        {
            let mut pin = self.pins[i];
            pin.update(samples[i]);
            self.pins.set(i, pin);
            i = i + 1;
        }
        assert(self.inputs() =~= Seq::new(N as nat, |i: int| before[i].step(samples@[i])));
    }

    /// The stable level of every input, `true` for high.
    pub fn values(&self) -> (r: [bool; N])
        requires
            self.wf(),
        ensures
            r@ == self.levels(),
    {
        let mut values = [false; N];
        let mut i: usize = 0;
        while i < N
            invariant
                i <= N,
                self.wf(),
                values@.len() == N,
                forall|j: int| 0 <= j < i ==> #[trigger] values@[j] == self.levels()[j],
            decreases N - i,
        {
            values[i] = self.pins[i].is_high();
            i = i + 1;
        }
        assert(values@ =~= self.levels());
        values
    }
}

} // verus!
