//! Keyboard usage codes of the USB HID keyboard page and the modifier bits
//! of a keyboard report.

use vstd::prelude::*;

verus! {

/// A key of the USB HID keyboard page (and some unofficial media keys).
#[derive(Clone, Copy, Debug, PartialEq, Eq, Structural)]
pub enum KeyCode {
    NoKey,
    ErrorRollOver,
    POSTFail,
    ErrorUndefined,
    A,
    B,
    C,
    D,
    E,
    F,
    G,
    H,
    I,
    J,
    K,
    L,
    M,
    N,
    O,
    P,
    Q,
    R,
    S,
    U,
    T,
    V,
    W,
    X,
    Y,
    Z,
    Kb1,
    Kb2,
    Kb3,
    Kb4,
    Kb5,
    Kb6,
    Kb7,
    Kb8,
    Kb9,
    Kb0,
    Enter,
    Escape,
    Backspace,
    Tab,
    Spacebar,
    Minus,
    Equals,
    LeftBracket,
    RightBracket,
    BackslashANSI,
    Hash,
    Semicolon,
    Apostrophy,
    Grave,
    Comma,
    Dot,
    ForwardSlash,
    CapsLock,
    F1,
    F2,
    F3,
    F4,
    F5,
    F6,
    F7,
    F8,
    F9,
    F10,
    F11,
    F12,
    PrintScreen,
    ScrollLock,
    Pause,
    Insert,
    Home,
    PageUp,
    Delete,
    End,
    PageDown,
    RightArrow,
    LeftArrow,
    DownArrow,
    UpArrow,
    KpNumLock,
    KpBackslash,
    KpAsterisk,
    KpMinus,
    KpPlus,
    KpEnter,
    Kp1,
    Kp2,
    Kp3,
    Kp4,
    Kp5,
    Kp6,
    Kp7,
    Kp8,
    Kp9,
    Kp0,
    KpDot,
    BackslashISO,
    Application,
    Power,
    KpEquals,
    F13,
    F14,
    F15,
    F16,
    F17,
    F18,
    F19,
    F20,
    F21,
    F22,
    F23,
    F24,
    Execute,
    Help,
    Menu,
    Select,
    Stop,
    Again,
    Undo,
    Cut,
    Copy,
    Paste,
    Find,
    Mute,
    VolumeUp,
    VolumeDown,
    LockingCapsLock,
    LockingNum,
    LockingScrollLock,
    KpComma,
    KpEqualSign,
    International1,
    International2,
    International3,
    International4,
    International5,
    International6,
    International7,
    International8,
    International9,
    LANG1,
    LANG2,
    LANG3,
    LANG4,
    LANG5,
    LANG6,
    LANG7,
    LANG8,
    LANG9,
    AlternateErase,
    SysReq,
    Cancel,
    Clear,
    Prior,
    Return,
    Separator,
    Out,
    Oper,
    ClearAgain,
    CrSelProps,
    ExSel,
    Kp00,
    Kp000,
    ThousandsSeparator,
    DecimalSeparator,
    CurrencyUnit,
    CurrencySubunit,
    KpLeftBracket,
    KpRightBracket,
    KpLeftCurlyBracket,
    KpRightCurlyBracket,
    KpTab,
    KpBackspace,
    KpA,
    KpB,
    KpC,
    KpD,
    KpE,
    KpF,
    KpXOR,
    KpCaret,
    KpPercent,
    KpLessThan,
    KpGreaterThan,
    Kpampersand,
    KpDoubleampersand,
    KpPipe,
    KpDoublePipe,
    KpColon,
    KpHash,
    KpSpace,
    KpAt,
    KpExclamation,
    KpMemoryStore,
    KpMemoryRecall,
    KpMemoryClear,
    KpMemoryAdd,
    KpMemorySubtract,
    KpMemoryMultiply,
    KpMemoryDivide,
    KpPlusMinus,
    KpClear,
    KpClearEntry,
    KpBinary,
    KpOctal,
    KpDecimal,
    KpHexadecimal,
    LeftControl,
    LeftShift,
    LeftAlt,
    LeftGUI,
    RightControl,
    RightShift,
    RightAlt,
    RightGUI,
    MediaPlayPause,
    MediaStopCD,
    MediaPreviousSong,
    MediaNextSong,
    MediaEjectCD,
    MediaVolUp,
    MediaVolDown,
    MediaMute,
    MediaWWW,
    MediaBack,
    MediaForward,
    MediaStop,
    MediaFind,
    MediaScrollUp,
    MediaScrollDown,
    MediaEdit,
    MediaSleep,
    MediaCoffee,
    MediaRefresh,
    MediaCalc,
}

impl KeyCode {
    /// The usage code of the key.
    pub open spec fn usage(self) -> u8 {
        match self {
        KeyCode::NoKey => 0x00,
        KeyCode::ErrorRollOver => 0x01,
        KeyCode::POSTFail => 0x02,
        KeyCode::ErrorUndefined => 0x03,
        KeyCode::A => 0x04,
        KeyCode::B => 0x05,
        KeyCode::C => 0x06,
        KeyCode::D => 0x07,
        KeyCode::E => 0x08,
        KeyCode::F => 0x09,
        KeyCode::G => 0x0A,
        KeyCode::H => 0x0B,
        KeyCode::I => 0x0C,
        KeyCode::J => 0x0D,
        KeyCode::K => 0x0E,
        KeyCode::L => 0x0F,
        KeyCode::M => 0x10,
        KeyCode::N => 0x11,
        KeyCode::O => 0x12,
        KeyCode::P => 0x13,
        KeyCode::Q => 0x14,
        KeyCode::R => 0x15,
        KeyCode::S => 0x16,
        KeyCode::U => 0x17,
        KeyCode::T => 0x18,
        KeyCode::V => 0x19,
        KeyCode::W => 0x1A,
        KeyCode::X => 0x1B,
        KeyCode::Y => 0x1C,
        KeyCode::Z => 0x1D,
        KeyCode::Kb1 => 0x1E,
        KeyCode::Kb2 => 0x1F,
        KeyCode::Kb3 => 0x20,
        KeyCode::Kb4 => 0x21,
        KeyCode::Kb5 => 0x22,
        KeyCode::Kb6 => 0x23,
        KeyCode::Kb7 => 0x24,
        KeyCode::Kb8 => 0x25,
        KeyCode::Kb9 => 0x26,
        KeyCode::Kb0 => 0x27,
        KeyCode::Enter => 0x28,
        KeyCode::Escape => 0x29,
        KeyCode::Backspace => 0x2A,
        KeyCode::Tab => 0x2B,
        KeyCode::Spacebar => 0x2C,
        KeyCode::Minus => 0x2D,
        KeyCode::Equals => 0x2E,
        KeyCode::LeftBracket => 0x2F,
        KeyCode::RightBracket => 0x30,
        KeyCode::BackslashANSI => 0x31,
        KeyCode::Hash => 0x32,
        KeyCode::Semicolon => 0x33,
        KeyCode::Apostrophy => 0x34,
        KeyCode::Grave => 0x35,
        KeyCode::Comma => 0x36,
        KeyCode::Dot => 0x37,
        KeyCode::ForwardSlash => 0x38,
        KeyCode::CapsLock => 0x39,
        KeyCode::F1 => 0x3A,
        KeyCode::F2 => 0x3B,
        KeyCode::F3 => 0x3C,
        KeyCode::F4 => 0x3D,
        KeyCode::F5 => 0x3E,
        KeyCode::F6 => 0x3F,
        KeyCode::F7 => 0x40,
        KeyCode::F8 => 0x41,
        KeyCode::F9 => 0x42,
        KeyCode::F10 => 0x43,
        KeyCode::F11 => 0x44,
        KeyCode::F12 => 0x45,
        KeyCode::PrintScreen => 0x46,
        KeyCode::ScrollLock => 0x47,
        KeyCode::Pause => 0x48,
        KeyCode::Insert => 0x49,
        KeyCode::Home => 0x4A,
        KeyCode::PageUp => 0x4B,
        KeyCode::Delete => 0x4C,
        KeyCode::End => 0x4D,
        KeyCode::PageDown => 0x4E,
        KeyCode::RightArrow => 0x4F,
        KeyCode::LeftArrow => 0x50,
        KeyCode::DownArrow => 0x51,
        KeyCode::UpArrow => 0x52,
        KeyCode::KpNumLock => 0x53,
        KeyCode::KpBackslash => 0x54,
        KeyCode::KpAsterisk => 0x55,
        KeyCode::KpMinus => 0x56,
        KeyCode::KpPlus => 0x57,
        KeyCode::KpEnter => 0x58,
        KeyCode::Kp1 => 0x59,
        KeyCode::Kp2 => 0x5A,
        KeyCode::Kp3 => 0x5B,
        KeyCode::Kp4 => 0x5C,
        KeyCode::Kp5 => 0x5D,
        KeyCode::Kp6 => 0x5E,
        KeyCode::Kp7 => 0x5F,
        KeyCode::Kp8 => 0x60,
        KeyCode::Kp9 => 0x61,
        KeyCode::Kp0 => 0x62,
        KeyCode::KpDot => 0x63,
        KeyCode::BackslashISO => 0x64,
        KeyCode::Application => 0x65,
        KeyCode::Power => 0x66,
        KeyCode::KpEquals => 0x67,
        KeyCode::F13 => 0x68,
        KeyCode::F14 => 0x69,
        KeyCode::F15 => 0x6A,
        KeyCode::F16 => 0x6B,
        KeyCode::F17 => 0x6C,
        KeyCode::F18 => 0x6D,
        KeyCode::F19 => 0x6E,
        KeyCode::F20 => 0x6F,
        KeyCode::F21 => 0x70,
        KeyCode::F22 => 0x71,
        KeyCode::F23 => 0x72,
        KeyCode::F24 => 0x73,
        KeyCode::Execute => 0x74,
        KeyCode::Help => 0x75,
        KeyCode::Menu => 0x76,
        KeyCode::Select => 0x77,
        KeyCode::Stop => 0x78,
        KeyCode::Again => 0x79,
        KeyCode::Undo => 0x7A,
        KeyCode::Cut => 0x7B,
        KeyCode::Copy => 0x7C,
        KeyCode::Paste => 0x7D,
        KeyCode::Find => 0x7E,
        KeyCode::Mute => 0x7F,
        KeyCode::VolumeUp => 0x80,
        KeyCode::VolumeDown => 0x81,
        KeyCode::LockingCapsLock => 0x82,
        KeyCode::LockingNum => 0x83,
        KeyCode::LockingScrollLock => 0x84,
        KeyCode::KpComma => 0x85,
        KeyCode::KpEqualSign => 0x86,
        KeyCode::International1 => 0x87,
        KeyCode::International2 => 0x88,
        KeyCode::International3 => 0x89,
        KeyCode::International4 => 0x8A,
        KeyCode::International5 => 0x8B,
        KeyCode::International6 => 0x8C,
        KeyCode::International7 => 0x8D,
        KeyCode::International8 => 0x8E,
        KeyCode::International9 => 0x8F,
        KeyCode::LANG1 => 0x90,
        KeyCode::LANG2 => 0x91,
        KeyCode::LANG3 => 0x92,
        KeyCode::LANG4 => 0x93,
        KeyCode::LANG5 => 0x94,
        KeyCode::LANG6 => 0x95,
        KeyCode::LANG7 => 0x96,
        KeyCode::LANG8 => 0x97,
        KeyCode::LANG9 => 0x98,
        KeyCode::AlternateErase => 0x99,
        KeyCode::SysReq => 0x9A,
        KeyCode::Cancel => 0x9B,
        KeyCode::Clear => 0x9C,
        KeyCode::Prior => 0x9D,
        KeyCode::Return => 0x9E,
        KeyCode::Separator => 0x9F,
        KeyCode::Out => 0xA0,
        KeyCode::Oper => 0xA1,
        KeyCode::ClearAgain => 0xA2,
        KeyCode::CrSelProps => 0xA3,
        KeyCode::ExSel => 0xA4,
        KeyCode::Kp00 => 0xB0,
        KeyCode::Kp000 => 0xB1,
        KeyCode::ThousandsSeparator => 0xB2,
        KeyCode::DecimalSeparator => 0xB3,
        KeyCode::CurrencyUnit => 0xB4,
        KeyCode::CurrencySubunit => 0xB5,
        KeyCode::KpLeftBracket => 0xB6,
        KeyCode::KpRightBracket => 0xB7,
        KeyCode::KpLeftCurlyBracket => 0xB8,
        KeyCode::KpRightCurlyBracket => 0xB9,
        KeyCode::KpTab => 0xBA,
        KeyCode::KpBackspace => 0xBB,
        KeyCode::KpA => 0xBC,
        KeyCode::KpB => 0xBD,
        KeyCode::KpC => 0xBE,
        KeyCode::KpD => 0xBF,
        KeyCode::KpE => 0xC0,
        KeyCode::KpF => 0xC1,
        KeyCode::KpXOR => 0xC2,
        KeyCode::KpCaret => 0xC3,
        KeyCode::KpPercent => 0xC4,
        KeyCode::KpLessThan => 0xC5,
        KeyCode::KpGreaterThan => 0xC6,
        KeyCode::Kpampersand => 0xC7,
        KeyCode::KpDoubleampersand => 0xC8,
        KeyCode::KpPipe => 0xC9,
        KeyCode::KpDoublePipe => 0xCA,
        KeyCode::KpColon => 0xCB,
        KeyCode::KpHash => 0xCC,
        KeyCode::KpSpace => 0xCD,
        KeyCode::KpAt => 0xCE,
        KeyCode::KpExclamation => 0xCF,
        KeyCode::KpMemoryStore => 0xD0,
        KeyCode::KpMemoryRecall => 0xD1,
        KeyCode::KpMemoryClear => 0xD2,
        KeyCode::KpMemoryAdd => 0xD3,
        KeyCode::KpMemorySubtract => 0xD4,
        KeyCode::KpMemoryMultiply => 0xD5,
        KeyCode::KpMemoryDivide => 0xD6,
        KeyCode::KpPlusMinus => 0xD7,
        KeyCode::KpClear => 0xD8,
        KeyCode::KpClearEntry => 0xD9,
        KeyCode::KpBinary => 0xDA,
        KeyCode::KpOctal => 0xDB,
        KeyCode::KpDecimal => 0xDC,
        KeyCode::KpHexadecimal => 0xDD,
        KeyCode::LeftControl => 0xE0,
        KeyCode::LeftShift => 0xE1,
        KeyCode::LeftAlt => 0xE2,
        KeyCode::LeftGUI => 0xE3,
        KeyCode::RightControl => 0xE4,
        KeyCode::RightShift => 0xE5,
        KeyCode::RightAlt => 0xE6,
        KeyCode::RightGUI => 0xE7,
        KeyCode::MediaPlayPause => 0xE8,
        KeyCode::MediaStopCD => 0xE9,
        KeyCode::MediaPreviousSong => 0xEA,
        KeyCode::MediaNextSong => 0xEB,
        KeyCode::MediaEjectCD => 0xEC,
        KeyCode::MediaVolUp => 0xED,
        KeyCode::MediaVolDown => 0xEE,
        KeyCode::MediaMute => 0xEF,
        KeyCode::MediaWWW => 0xF0,
        KeyCode::MediaBack => 0xF1,
        KeyCode::MediaForward => 0xF2,
        KeyCode::MediaStop => 0xF3,
        KeyCode::MediaFind => 0xF4,
        KeyCode::MediaScrollUp => 0xF5,
        KeyCode::MediaScrollDown => 0xF6,
        KeyCode::MediaEdit => 0xF7,
        KeyCode::MediaSleep => 0xF8,
        KeyCode::MediaCoffee => 0xF9,
        KeyCode::MediaRefresh => 0xFA,
        KeyCode::MediaCalc => 0xFB,
        }
    }

    /// The usage code of the key.
    pub fn code(self) -> (r: u8)
        ensures
            r == self.usage(),
    {
        match self {
        KeyCode::NoKey => 0x00,
        KeyCode::ErrorRollOver => 0x01,
        KeyCode::POSTFail => 0x02,
        KeyCode::ErrorUndefined => 0x03,
        KeyCode::A => 0x04,
        KeyCode::B => 0x05,
        KeyCode::C => 0x06,
        KeyCode::D => 0x07,
        KeyCode::E => 0x08,
        KeyCode::F => 0x09,
        KeyCode::G => 0x0A,
        KeyCode::H => 0x0B,
        KeyCode::I => 0x0C,
        KeyCode::J => 0x0D,
        KeyCode::K => 0x0E,
        KeyCode::L => 0x0F,
        KeyCode::M => 0x10,
        KeyCode::N => 0x11,
        KeyCode::O => 0x12,
        KeyCode::P => 0x13,
        KeyCode::Q => 0x14,
        KeyCode::R => 0x15,
        KeyCode::S => 0x16,
        KeyCode::U => 0x17,
        KeyCode::T => 0x18,
        KeyCode::V => 0x19,
        KeyCode::W => 0x1A,
        KeyCode::X => 0x1B,
        KeyCode::Y => 0x1C,
        KeyCode::Z => 0x1D,
        KeyCode::Kb1 => 0x1E,
        KeyCode::Kb2 => 0x1F,
        KeyCode::Kb3 => 0x20,
        KeyCode::Kb4 => 0x21,
        KeyCode::Kb5 => 0x22,
        KeyCode::Kb6 => 0x23,
        KeyCode::Kb7 => 0x24,
        KeyCode::Kb8 => 0x25,
        KeyCode::Kb9 => 0x26,
        KeyCode::Kb0 => 0x27,
        KeyCode::Enter => 0x28,
        KeyCode::Escape => 0x29,
        KeyCode::Backspace => 0x2A,
        KeyCode::Tab => 0x2B,
        KeyCode::Spacebar => 0x2C,
        KeyCode::Minus => 0x2D,
        KeyCode::Equals => 0x2E,
        KeyCode::LeftBracket => 0x2F,
        KeyCode::RightBracket => 0x30,
        KeyCode::BackslashANSI => 0x31,
        KeyCode::Hash => 0x32,
        KeyCode::Semicolon => 0x33,
        KeyCode::Apostrophy => 0x34,
        KeyCode::Grave => 0x35,
        KeyCode::Comma => 0x36,
        KeyCode::Dot => 0x37,
        KeyCode::ForwardSlash => 0x38,
        KeyCode::CapsLock => 0x39,
        KeyCode::F1 => 0x3A,
        KeyCode::F2 => 0x3B,
        KeyCode::F3 => 0x3C,
        KeyCode::F4 => 0x3D,
        KeyCode::F5 => 0x3E,
        KeyCode::F6 => 0x3F,
        KeyCode::F7 => 0x40,
        KeyCode::F8 => 0x41,
        KeyCode::F9 => 0x42,
        KeyCode::F10 => 0x43,
        KeyCode::F11 => 0x44,
        KeyCode::F12 => 0x45,
        KeyCode::PrintScreen => 0x46,
        KeyCode::ScrollLock => 0x47,
        KeyCode::Pause => 0x48,
        KeyCode::Insert => 0x49,
        KeyCode::Home => 0x4A,
        KeyCode::PageUp => 0x4B,
        KeyCode::Delete => 0x4C,
        KeyCode::End => 0x4D,
        KeyCode::PageDown => 0x4E,
        KeyCode::RightArrow => 0x4F,
        KeyCode::LeftArrow => 0x50,
        KeyCode::DownArrow => 0x51,
        KeyCode::UpArrow => 0x52,
        KeyCode::KpNumLock => 0x53,
        KeyCode::KpBackslash => 0x54,
        KeyCode::KpAsterisk => 0x55,
        KeyCode::KpMinus => 0x56,
        KeyCode::KpPlus => 0x57,
        KeyCode::KpEnter => 0x58,
        KeyCode::Kp1 => 0x59,
        KeyCode::Kp2 => 0x5A,
        KeyCode::Kp3 => 0x5B,
        KeyCode::Kp4 => 0x5C,
        KeyCode::Kp5 => 0x5D,
        KeyCode::Kp6 => 0x5E,
        KeyCode::Kp7 => 0x5F,
        KeyCode::Kp8 => 0x60,
        KeyCode::Kp9 => 0x61,
        KeyCode::Kp0 => 0x62,
        KeyCode::KpDot => 0x63,
        KeyCode::BackslashISO => 0x64,
        KeyCode::Application => 0x65,
        KeyCode::Power => 0x66,
        KeyCode::KpEquals => 0x67,
        KeyCode::F13 => 0x68,
        KeyCode::F14 => 0x69,
        KeyCode::F15 => 0x6A,
        KeyCode::F16 => 0x6B,
        KeyCode::F17 => 0x6C,
        KeyCode::F18 => 0x6D,
        KeyCode::F19 => 0x6E,
        KeyCode::F20 => 0x6F,
        KeyCode::F21 => 0x70,
        KeyCode::F22 => 0x71,
        KeyCode::F23 => 0x72,
        KeyCode::F24 => 0x73,
        KeyCode::Execute => 0x74,
        KeyCode::Help => 0x75,
        KeyCode::Menu => 0x76,
        KeyCode::Select => 0x77,
        KeyCode::Stop => 0x78,
        KeyCode::Again => 0x79,
        KeyCode::Undo => 0x7A,
        KeyCode::Cut => 0x7B,
        KeyCode::Copy => 0x7C,
        KeyCode::Paste => 0x7D,
        KeyCode::Find => 0x7E,
        KeyCode::Mute => 0x7F,
        KeyCode::VolumeUp => 0x80,
        KeyCode::VolumeDown => 0x81,
        KeyCode::LockingCapsLock => 0x82,
        KeyCode::LockingNum => 0x83,
        KeyCode::LockingScrollLock => 0x84,
        KeyCode::KpComma => 0x85,
        KeyCode::KpEqualSign => 0x86,
        KeyCode::International1 => 0x87,
        KeyCode::International2 => 0x88,
        KeyCode::International3 => 0x89,
        KeyCode::International4 => 0x8A,
        KeyCode::International5 => 0x8B,
        KeyCode::International6 => 0x8C,
        KeyCode::International7 => 0x8D,
        KeyCode::International8 => 0x8E,
        KeyCode::International9 => 0x8F,
        KeyCode::LANG1 => 0x90,
        KeyCode::LANG2 => 0x91,
        KeyCode::LANG3 => 0x92,
        KeyCode::LANG4 => 0x93,
        KeyCode::LANG5 => 0x94,
        KeyCode::LANG6 => 0x95,
        KeyCode::LANG7 => 0x96,
        KeyCode::LANG8 => 0x97,
        KeyCode::LANG9 => 0x98,
        KeyCode::AlternateErase => 0x99,
        KeyCode::SysReq => 0x9A,
        KeyCode::Cancel => 0x9B,
        KeyCode::Clear => 0x9C,
        KeyCode::Prior => 0x9D,
        KeyCode::Return => 0x9E,
        KeyCode::Separator => 0x9F,
        KeyCode::Out => 0xA0,
        KeyCode::Oper => 0xA1,
        KeyCode::ClearAgain => 0xA2,
        KeyCode::CrSelProps => 0xA3,
        KeyCode::ExSel => 0xA4,
        KeyCode::Kp00 => 0xB0,
        KeyCode::Kp000 => 0xB1,
        KeyCode::ThousandsSeparator => 0xB2,
        KeyCode::DecimalSeparator => 0xB3,
        KeyCode::CurrencyUnit => 0xB4,
        KeyCode::CurrencySubunit => 0xB5,
        KeyCode::KpLeftBracket => 0xB6,
        KeyCode::KpRightBracket => 0xB7,
        KeyCode::KpLeftCurlyBracket => 0xB8,
        KeyCode::KpRightCurlyBracket => 0xB9,
        KeyCode::KpTab => 0xBA,
        KeyCode::KpBackspace => 0xBB,
        KeyCode::KpA => 0xBC,
        KeyCode::KpB => 0xBD,
        KeyCode::KpC => 0xBE,
        KeyCode::KpD => 0xBF,
        KeyCode::KpE => 0xC0,
        KeyCode::KpF => 0xC1,
        KeyCode::KpXOR => 0xC2,
        KeyCode::KpCaret => 0xC3,
        KeyCode::KpPercent => 0xC4,
        KeyCode::KpLessThan => 0xC5,
        KeyCode::KpGreaterThan => 0xC6,
        KeyCode::Kpampersand => 0xC7,
        KeyCode::KpDoubleampersand => 0xC8,
        KeyCode::KpPipe => 0xC9,
        KeyCode::KpDoublePipe => 0xCA,
        KeyCode::KpColon => 0xCB,
        KeyCode::KpHash => 0xCC,
        KeyCode::KpSpace => 0xCD,
        KeyCode::KpAt => 0xCE,
        KeyCode::KpExclamation => 0xCF,
        KeyCode::KpMemoryStore => 0xD0,
        KeyCode::KpMemoryRecall => 0xD1,
        KeyCode::KpMemoryClear => 0xD2,
        KeyCode::KpMemoryAdd => 0xD3,
        KeyCode::KpMemorySubtract => 0xD4,
        KeyCode::KpMemoryMultiply => 0xD5,
        KeyCode::KpMemoryDivide => 0xD6,
        KeyCode::KpPlusMinus => 0xD7,
        KeyCode::KpClear => 0xD8,
        KeyCode::KpClearEntry => 0xD9,
        KeyCode::KpBinary => 0xDA,
        KeyCode::KpOctal => 0xDB,
        KeyCode::KpDecimal => 0xDC,
        KeyCode::KpHexadecimal => 0xDD,
        KeyCode::LeftControl => 0xE0,
        KeyCode::LeftShift => 0xE1,
        KeyCode::LeftAlt => 0xE2,
        KeyCode::LeftGUI => 0xE3,
        KeyCode::RightControl => 0xE4,
        KeyCode::RightShift => 0xE5,
        KeyCode::RightAlt => 0xE6,
        KeyCode::RightGUI => 0xE7,
        KeyCode::MediaPlayPause => 0xE8,
        KeyCode::MediaStopCD => 0xE9,
        KeyCode::MediaPreviousSong => 0xEA,
        KeyCode::MediaNextSong => 0xEB,
        KeyCode::MediaEjectCD => 0xEC,
        KeyCode::MediaVolUp => 0xED,
        KeyCode::MediaVolDown => 0xEE,
        KeyCode::MediaMute => 0xEF,
        KeyCode::MediaWWW => 0xF0,
        KeyCode::MediaBack => 0xF1,
        KeyCode::MediaForward => 0xF2,
        KeyCode::MediaStop => 0xF3,
        KeyCode::MediaFind => 0xF4,
        KeyCode::MediaScrollUp => 0xF5,
        KeyCode::MediaScrollDown => 0xF6,
        KeyCode::MediaEdit => 0xF7,
        KeyCode::MediaSleep => 0xF8,
        KeyCode::MediaCoffee => 0xF9,
        KeyCode::MediaRefresh => 0xFA,
        KeyCode::MediaCalc => 0xFB,
        }
    }

    /// The key is one of the eight modifiers, left control to right GUI.
    pub fn is_modifier(self) -> (r: bool)
        ensures
            r == (KeyCode::LeftControl.usage() <= self.usage() <= KeyCode::RightGUI.usage()),
    {
        let c = self.code();
        c >= KeyCode::LeftControl.code() && c <= KeyCode::RightGUI.code()
    }
}

pub const CTRL_LEFT: u8 = 0b0000_0001;
pub const SHIFT_LEFT: u8 = 0b0000_0010;
pub const ALT_LEFT: u8 = 0b0000_0100;
pub const GUI_LEFT: u8 = 0b0000_1000;
pub const CTRL_RIGHT: u8 = 0b0001_0000;
pub const SHIFT_RIGHT: u8 = 0b0010_0000;
pub const ALT_RIGHT: u8 = 0b0100_0000;
pub const GUI_RIGHT: u8 = 0b1000_0000;

/// The modifier byte of a keyboard report: one bit per modifier key, in the
/// order left control, shift, alt, GUI, then the same on the right.
#[derive(Clone, Copy, Debug, PartialEq, Eq, Structural)]
pub struct Modifiers {
    bits: u8,
}

/// The bit of a modifier key: bit `k` for the `k`-th modifier after left
/// control; no bit for any other key.
pub open spec fn modifier_bit(k: KeyCode) -> u8 {
    if KeyCode::LeftControl.usage() <= k.usage() <= KeyCode::RightGUI.usage() {
        (1u8 << ((k.usage() - KeyCode::LeftControl.usage()) as u8)) as u8
    } else {
        0
    }
}

impl Modifiers {
    pub closed spec fn value(self) -> u8 {
        self.bits
    }

    pub closed spec fn with_bits(bits: u8) -> Modifiers {
        Modifiers { bits }
    }

    /// No modifier.
    pub fn empty() -> (r: Modifiers)
        ensures
            r.value() == 0,
    {
        Modifiers { bits: 0 }
    }

    /// The modifiers of the set bits of `bits`.
    pub fn from_bits_truncate(bits: u8) -> (r: Modifiers)
        ensures
            r.value() == bits,
    {
        Modifiers { bits }
    }

    pub fn bits(&self) -> (r: u8)
        ensures
            r == self.value(),
    {
        self.bits
    }

    /// The modifiers of either set.
    pub fn union(self, other: Modifiers) -> (r: Modifiers)
        ensures
            r.value() == self.value() | other.value(),
    {
        Modifiers { bits: self.bits | other.bits }
    }
}

impl From<KeyCode> for Modifiers {
    /// The modifier bit of a modifier key; no modifier for any other key.
    fn from(keycode: KeyCode) -> (r: Modifiers)
        ensures
            r == Modifiers::with_bits(modifier_bit(keycode)),
            r.value() == modifier_bit(keycode),
    {
        if keycode.is_modifier() {
            let shift: u8 = keycode.code() - KeyCode::LeftControl.code();
            assert(shift < 8);
            Modifiers { bits: 1u8 << shift }
        } else {
            Modifiers { bits: 0 }
        }
    }
}

impl vstd::std_specs::convert::FromSpecImpl<KeyCode> for Modifiers {
    open spec fn obeys_from_spec() -> bool {
        true
    }

    open spec fn from_spec(keycode: KeyCode) -> Modifiers {
        Modifiers::with_bits(modifier_bit(keycode))
    }
}

} // verus!
