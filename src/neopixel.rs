//! Colours of the key LEDs: a rainbow that turns one step per update, with
//! the LEDs of pressed keys lit white.

use vstd::prelude::*;

verus! {

/// Positions on the colour wheel.
pub const WHEEL_STEPS: u16 = 765;

/// An RGB colour.
pub type Rgb = (u8, u8, u8);

/// The colour at `pos` on the wheel: red fades into blue, blue into green,
/// green back into red.
pub open spec fn wheel_spec(pos: int) -> Rgb {
    if pos < 255 {
        ((255 - pos) as u8, 0, pos as u8)
    } else if pos < 510 {
        (0, (pos - 255) as u8, (254 - (pos - 255)) as u8)
    } else {
        ((pos - 510) as u8, (254 - (pos - 510)) as u8, 0)
    }
}

/// The colour at `wheel_pos` (below `WHEEL_STEPS`) on the wheel.
pub fn wheel(wheel_pos: u16) -> (r: Rgb)
    requires
        wheel_pos < WHEEL_STEPS,
    ensures
        r == wheel_spec(wheel_pos as int),
{
    if wheel_pos < 255 {
        (255 - wheel_pos as u8, 0, wheel_pos as u8)
    } else if wheel_pos < 510 {
        let p = wheel_pos - 255;
        (0, p as u8, 254 - p as u8)
    } else {
        let p = wheel_pos - 510;
        (p as u8, 254 - p as u8, 0)
    }
}

/// The colour of LED `i` of `len` at rainbow offset `n`, given the pressed
/// keys.
pub open spec fn led_colour(n: int, i: int, len: int, keys: Seq<usize>) -> Rgb {
    if keys.contains(i as usize) {
        (255, 255, 255)
    } else {
        wheel_spec((n + i * (WHEEL_STEPS as int / len)) % (WHEEL_STEPS as int))
    }
}

/// A strip of `LEN` LEDs behind the keys, written through `ws`.
pub struct Neopixels<S, const LEN: usize> {
    ws: S,
    n: u16,
}

impl<S, const LEN: usize> Neopixels<S, LEN> {
    /// The rainbow offset.
    pub closed spec fn offset(&self) -> u16 {
        self.n
    }

    pub closed spec fn writer(&self) -> S {
        self.ws
    }

    pub fn new(ws: S) -> (r: Neopixels<S, LEN>)
        ensures
            r.writer() == ws,
            r.offset() == 0,
    {
        Neopixels { ws, n: 0 }
    }

    /// The colour of every LED: white for the LEDs listed in `keys`, the
    /// rainbow spread evenly over the strip for the others.
    pub fn colours(&self, keys: &[usize]) -> (r: Vec<Rgb>)
        requires
            0 < LEN <= u16::MAX,
            self.offset() < WHEEL_STEPS,
        ensures
            r@.len() == LEN,
            forall|i: int|
                0 <= i < LEN ==> #[trigger] r@[i] == led_colour(
                    self.offset() as int,
                    i,
                    LEN as int,
                    keys@,
                ),
    {
        let led_steps: u16 = WHEEL_STEPS / LEN as u16;
        let mut out: Vec<Rgb> = Vec::new();
        let mut i: usize = 0;
        while i < LEN
            invariant
                0 < LEN <= u16::MAX,
                self.offset() < WHEEL_STEPS,
                led_steps as int == WHEEL_STEPS as int / LEN as int,
                i <= LEN,
                out@.len() == i,
                forall|j: int|
                    0 <= j < i ==> #[trigger] out@[j] == led_colour(
                        self.offset() as int,
                        j,
                        LEN as int,
                        keys@,
                    ),
            decreases LEN - i,
        {
            let mut pressed = false;
            let mut k: usize = 0;
            while k < keys.len()
                invariant
                    k <= keys@.len(),
                    pressed <==> exists|m: int| 0 <= m < k && keys@[m] == i,
                decreases keys@.len() - k,
            {
                if keys[k] == i {
                    pressed = true;
                }
                k = k + 1;
            }
            assert(pressed == keys@.contains(i));
            if pressed {
                out.push((255, 255, 255));
            } else {
                assert(led_steps * LEN <= WHEEL_STEPS) by (nonlinear_arith)
                    requires
                        led_steps as int == WHEEL_STEPS as int / LEN as int,
                        LEN > 0,
                ;
                assert(i * led_steps <= WHEEL_STEPS) by (nonlinear_arith)
                    requires
                        i < LEN,
                        led_steps * LEN <= WHEEL_STEPS,
                ;
                let pos = (self.n + i as u16 * led_steps) % WHEEL_STEPS;
                out.push(wheel(pos));
            }
            i = i + 1;
        }
        out
    }

    /// Turns the rainbow one step.
    pub fn advance(&mut self)
        requires
            old(self).offset() < WHEEL_STEPS,
        ensures
            final(self).offset() == (old(self).offset() + 1) % (WHEEL_STEPS as int),
            final(self).writer() == old(self).writer(),
    {
        self.n = (self.n + 1) % WHEEL_STEPS;
    }

    /// The writer of the strip.
    pub fn ws_mut(&mut self) -> (r: &mut S)
        ensures
            *r == old(self).writer(),
            final(self).writer() == *final(r),
            final(self).offset() == old(self).offset(),
    {
        &mut self.ws
    }
}

} // verus!
