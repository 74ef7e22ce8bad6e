//! Input-to-action core of a USB macropad.
//!
//! Raw pin levels are debounced (`debounce`), turned into key states and fed
//! to a tap/hold key mapper (`keymap`); the mapping tick (`keypad`) applies the
//! application's own actions to the shared models (`models`) and hands the
//! keyboard keys to the USB report writer; the tick schedule (`schedule`) runs
//! scan, mapping and display passes in one cooperative poll loop.
//!
//! Alongside: quadrature decoding of the rotary encoder (`encoder`), a plain
//! numeric keypad report (`numpad`), a matrix keyboard with a layout
//! (`keycode`, `keyboard`), LED colours (`neopixel`, `flasher`) and the
//! bounded log shown on the display (`logbuf`).

pub mod debounce;
pub mod keymap;
pub mod models;
pub mod keypad;
pub mod schedule;
pub mod encoder;
pub mod numpad;
pub mod keycode;
pub mod keyboard;
pub mod neopixel;
pub mod flasher;
pub mod logbuf;
