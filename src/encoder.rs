//! Quadrature decoding of the rotary encoder.
//!
//! The two encoder pins are sampled together; each valid Gray-code step moves
//! a quarter-step counter by one, and four quarter steps make one detent of
//! the encoder's value.

use vstd::prelude::*;

verus! {

/// Movement of one sample, from the previous pin state and the new one,
/// indexed by `new << 2 | previous`: +1 or -1 for a valid quarter step, 0 for
/// no change or an invalid jump.
pub open spec fn quarter_step(index: int) -> int {
    if index == 1 || index == 7 || index == 8 || index == 14 {
        -1
    } else if index == 2 || index == 4 || index == 11 || index == 13 {
        1
    } else {
        0
    }
}

fn transition(index: u8) -> (r: i8)
    requires
        index < 16,
    ensures
        r == quarter_step(index as int),
{
    match index {
        1 | 7 | 8 | 14 => -1,
        2 | 4 | 11 | 13 => 1,
        _ => 0,
    }
}

/// The pin state sampled from the two pin levels: bit 0 for pin A, bit 1 for
/// pin B.
pub open spec fn pin_state(a_high: bool, b_high: bool) -> u8 {
    ((if a_high {
        1int
    } else {
        0int
    }) + (if b_high {
        2int
    } else {
        0int
    })) as u8
}

/// A rotary encoder on two input pins.
pub struct RotaryEncoder<P> {
    pin_a: P,
    pin_b: P,
    state: u8,
    quarter_idx: i8,
    value: i32,
}

impl<P> RotaryEncoder<P> {
    pub closed spec fn pins(&self) -> (P, P) {
        (self.pin_a, self.pin_b)
    }

    /// The last sampled pin state.
    pub closed spec fn phase(&self) -> u8 {
        self.state
    }

    /// Quarter steps taken since the last detent.
    pub closed spec fn quarter(&self) -> i8 {
        self.quarter_idx
    }

    /// Detents counted so far.
    pub closed spec fn count(&self) -> i32 {
        self.value
    }

    pub open spec fn wf(&self) -> bool {
        &&& self.phase() < 4
        &&& -3 <= self.quarter() <= 3
    }

    /// An encoder at rest with both pins high.
    pub fn new(pin_a: P, pin_b: P) -> (r: RotaryEncoder<P>)
        ensures
            r.wf(),
            r.pins() == (pin_a, pin_b),
            r.phase() == 3,
            r.quarter() == 0,
            r.count() == 0,
    {
        RotaryEncoder { pin_a, pin_b, state: 3, quarter_idx: 0, value: 0 }
    }

    /// Feeds one sample of the two pin levels. Four quarter steps upward take
    /// one off the value, four downward add one; the value wraps at the ends
    /// of its range.
    pub fn update(&mut self, a_high: bool, b_high: bool)
        requires
            old(self).wf(),
        ensures
            final(self).wf(),
            final(self).pins() == old(self).pins(),
            final(self).phase() == pin_state(a_high, b_high),
            ({
                let q = old(self).quarter() + quarter_step(
                    pin_state(a_high, b_high) * 4 + old(self).phase(),
                );
                &&& q > 3 ==> final(self).quarter() == q - 4 && final(self).count() == old(
                    self,
                ).count().wrapping_sub(1)
                &&& q < -3 ==> final(self).quarter() == q + 4 && final(self).count() == old(
                    self,
                ).count().wrapping_add(1)
                &&& -3 <= q <= 3 ==> final(self).quarter() == q && final(self).count() == old(
                    self,
                ).count()
            }),
    {
        let a: u8 = if a_high { 1 } else { 0 };
        let b: u8 = if b_high { 2 } else { 0 };
        let new_state: u8 = a | b;
        assert(new_state == a + b) by (bit_vector)
            requires
                a == 0u8 || a == 1u8,
                b == 0u8 || b == 2u8,
                new_state == a | b,
        ;
        let t = transition(new_state * 4 + self.state);
        self.state = new_state;
        self.quarter_idx = self.quarter_idx + t;
        if self.quarter_idx > 3 {
            self.value = self.value.wrapping_sub(1);
            self.quarter_idx = self.quarter_idx - 4;
        } else if self.quarter_idx < -3 {
            self.value = self.value.wrapping_add(1);
            self.quarter_idx = self.quarter_idx + 4;
        }
    }

    pub fn pins_borrow(&self) -> (r: (&P, &P))
        ensures
            (*r.0, *r.1) == self.pins(),
    {
        (&self.pin_a, &self.pin_b)
    }

    pub fn pins_borrow_mut(&mut self) -> (r: (&mut P, &mut P))
        ensures
            (*r.0, *r.1) == old(self).pins(),
            final(self).pins() == (*final(r.0), *final(r.1)),
            final(self).phase() == old(self).phase(),
            final(self).quarter() == old(self).quarter(),
            final(self).count() == old(self).count(),
    {
        (&mut self.pin_a, &mut self.pin_b)
    }

    /// Detents counted so far.
    pub fn value(&self) -> (r: i32)
        ensures
            r == self.count(),
    {
        self.value
    }
}

} // verus!
