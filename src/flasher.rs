//! A status LED that lights while a button is held and counts the presses.

use vstd::prelude::*;

verus! {

/// Counts button presses and follows the button with an LED.
pub struct LedFlasher {
    count: u8,
    pressed: bool,
}

impl LedFlasher {
    /// Presses seen so far, modulo 256.
    pub closed spec fn presses(&self) -> u8 {
        self.count
    }

    /// The button was down at the last sample.
    pub closed spec fn is_pressed(&self) -> bool {
        self.pressed
    }

    pub fn new() -> (r: LedFlasher)
        ensures
            r.presses() == 0,
            !r.is_pressed(),
    {
        LedFlasher { count: 0, pressed: false }
    }

    /// Feeds one sample of the button (`true` when its pin is low, i.e. held)
    /// and returns the level to drive the LED to, if it changes: on at a
    /// press, which is counted, and off while the button is up.
    pub fn update(&mut self, button_low: bool) -> (r: Option<bool>)
        ensures
            button_low && !old(self).is_pressed() ==> r == Some(true) && final(self).is_pressed()
                && final(self).presses() == old(self).presses().wrapping_add(1),
            button_low && old(self).is_pressed() ==> r is None && *final(self) == *old(self),
            !button_low ==> r == Some(false) && !final(self).is_pressed() && final(self).presses()
                == old(self).presses(),
    {
        if button_low && !self.pressed {
            self.pressed = true;
            self.count = self.count.wrapping_add(1);
            Some(true)
        } else if !button_low {
            self.pressed = false;
            Some(false)
        } else {
            None
        }
    }
}

} // verus!
