//! The closed key identity enumeration and the modifier bit assignment.
//! Each identity maps to its fixed HID usage code through `code`; the
//! mapping is part of the report wire format and must not be reordered.

use vstd::prelude::*;

verus! {

/// A semantic key identity: letter, digit, punctuation, modifier or media
/// key, or the sentinel `Reserved` ("no key").  `ErrOvf` is the error-rollover
/// sentinel that fills every report slot on overflow.
#[derive(Clone, Copy, Debug, PartialEq, Eq, Structural)]
pub enum KeyCodes {
    Reserved,
    ErrOvf,
    PostFail,
    ErrorUndefined,
    KeyA,
    KeyB,
    KeyC,
    KeyD,
    KeyE,
    KeyF,
    KeyG,
    KeyH,
    KeyI,
    KeyJ,
    KeyK,
    KeyL,
    KeyM,
    KeyN,
    KeyO,
    KeyP,
    KeyQ,
    KeyR,
    KeyS,
    KeyT,
    KeyU,
    KeyV,
    KeyW,
    KeyX,
    KeyY,
    KeyZ,
    Key1,
    Key2,
    Key3,
    Key4,
    Key5,
    Key6,
    Key7,
    Key8,
    Key9,
    Key0,
    Enter,
    Escape,
    BackSpace,
    Tab,
    Space,
    Minus,
    Equal,
    LeftBrace,
    RightBrace,
    BackSlash,
    HashTilde,
    SemiColon,
    Apostrophe,
    Grave,
    Comma,
    Dot,
    Slash,
    CapsLock,
    F1,
    F2,
    F3,
    F4,
    F5,
    F6,
    F7,
    F8,
    F9,
    F10,
    F11,
    F12,
    PrintScreen,
    ScrollLock,
    Pause,
    Insert,
    Home,
    PageUp,
    Delete,
    End,
    PageDown,
    Right,
    Left,
    Down,
    Up,
    NumLock,
    KPSlash,
    KPAsterisk,
    KPMinum,
    KPPlus,
    KPEnter,
    KP1,
    KP2,
    KP3,
    KP4,
    KP5,
    KP6,
    KP7,
    KP8,
    KP9,
    KP0,
    KPDot,
    K102ND,
    Compose,
    Power,
    KPEqual,
    F13,
    F14,
    F15,
    F16,
    F17,
    F18,
    F19,
    F20,
    F21,
    F22,
    F23,
    F24,
    Open,
    Help,
    Props,
    Front,
    Stop,
    Again,
    Undo,
    Cut,
    Copy,
    Paste,
    Find,
    Mute,
    VolumeUp,
    VolumeDown,
    LockingCapsLock,
    LockingNumLock,
    LockingScrollLock,
    KPComma,
    KPEqualSign,
    RO,
    KATAKANAHIRAGANA,
    YEN,
    HENKAN,
    MUHENKAN,
    KPJPCOMMA,
    INTR7,
    INTR8,
    INTR9,
    HANGEUL,
    HANJA,
    KATAKANA,
    HIRAGANA,
    ZENKAKUHANKAKU,
    LANG6,
    LANG7,
    LANG8,
    LANG9,
    AlternateErase,
    SysReqAttention,
    Cancel,
    Clear,
    Prior,
    Return,
    Separator,
    Out,
    Oper,
    ClearAgain,
    CrSelProps,
    ExSel,
    K00,
    K000,
    ThousandsSeparator,
    DecimalSeparator,
    CurrencyUnit,
    CurrencySubunit,
    KPLeftParen,
    KPRightParen,
    LeftCtrl,
    LeftShift,
    LeftAlt,
    LeftMeta,
    RightCtrl,
    RightShift,
    RightAlt,
    RightMeta,
    MediaPlayPause,
    MediaStopCD,
    MediaPreviousSong,
    MediaNextSong,
    MediaEjectCD,
    MediaVolumeUp,
    MediaVolumeDown,
    MediaMute,
    MediaWWW,
    MediaBack,
    MediaForward,
    MediaStop,
    MediaFing,
    MediaScrollUp,
    MediaScrollDown,
    MediaEdit,
    MediaSleep,
    MediaCoffee,
    MediaRefresh,
    MediaCalc,
}

impl KeyCodes {
    /// The HID usage code that stands for this key in a keyboard report.
    pub open spec fn spec_code(self) -> u8 {
        match self {
            KeyCodes::Reserved => 0x00,
            KeyCodes::ErrOvf => 0x01,
            KeyCodes::PostFail => 0x02,
            KeyCodes::ErrorUndefined => 0x03,
            KeyCodes::KeyA => 0x04,
            KeyCodes::KeyB => 0x05,
            KeyCodes::KeyC => 0x06,
            KeyCodes::KeyD => 0x07,
            KeyCodes::KeyE => 0x08,
            KeyCodes::KeyF => 0x09,
            KeyCodes::KeyG => 0x0a,
            KeyCodes::KeyH => 0x0b,
            KeyCodes::KeyI => 0x0c,
            KeyCodes::KeyJ => 0x0d,
            KeyCodes::KeyK => 0x0e,
            KeyCodes::KeyL => 0x0f,
            KeyCodes::KeyM => 0x10,
            KeyCodes::KeyN => 0x11,
            KeyCodes::KeyO => 0x12,
            KeyCodes::KeyP => 0x13,
            KeyCodes::KeyQ => 0x14,
            KeyCodes::KeyR => 0x15,
            KeyCodes::KeyS => 0x16,
            KeyCodes::KeyT => 0x17,
            KeyCodes::KeyU => 0x18,
            KeyCodes::KeyV => 0x19,
            KeyCodes::KeyW => 0x1a,
            KeyCodes::KeyX => 0x1b,
            KeyCodes::KeyY => 0x1c,
            KeyCodes::KeyZ => 0x1d,
            KeyCodes::Key1 => 0x1e,
            KeyCodes::Key2 => 0x1f,
            KeyCodes::Key3 => 0x20,
            KeyCodes::Key4 => 0x21,
            KeyCodes::Key5 => 0x22,
            KeyCodes::Key6 => 0x23,
            KeyCodes::Key7 => 0x24,
            KeyCodes::Key8 => 0x25,
            KeyCodes::Key9 => 0x26,
            KeyCodes::Key0 => 0x27,
            KeyCodes::Enter => 0x28,
            KeyCodes::Escape => 0x29,
            KeyCodes::BackSpace => 0x2a,
            KeyCodes::Tab => 0x2b,
            KeyCodes::Space => 0x2c,
            KeyCodes::Minus => 0x2d,
            KeyCodes::Equal => 0x2e,
            KeyCodes::LeftBrace => 0x2f,
            KeyCodes::RightBrace => 0x30,
            KeyCodes::BackSlash => 0x31,
            KeyCodes::HashTilde => 0x32,
            KeyCodes::SemiColon => 0x33,
            KeyCodes::Apostrophe => 0x34,
            KeyCodes::Grave => 0x35,
            KeyCodes::Comma => 0x36,
            KeyCodes::Dot => 0x37,
            KeyCodes::Slash => 0x38,
            KeyCodes::CapsLock => 0x39,
            KeyCodes::F1 => 0x3a,
            KeyCodes::F2 => 0x3b,
            KeyCodes::F3 => 0x3c,
            KeyCodes::F4 => 0x3d,
            KeyCodes::F5 => 0x3e,
            KeyCodes::F6 => 0x3f,
            KeyCodes::F7 => 0x40,
            KeyCodes::F8 => 0x41,
            KeyCodes::F9 => 0x42,
            KeyCodes::F10 => 0x43,
            KeyCodes::F11 => 0x44,
            KeyCodes::F12 => 0x45,
            KeyCodes::PrintScreen => 0x46,
            KeyCodes::ScrollLock => 0x47,
            KeyCodes::Pause => 0x48,
            KeyCodes::Insert => 0x49,
            KeyCodes::Home => 0x4a,
            KeyCodes::PageUp => 0x4b,
            KeyCodes::Delete => 0x4c,
            KeyCodes::End => 0x4d,
            KeyCodes::PageDown => 0x4e,
            KeyCodes::Right => 0x4f,
            KeyCodes::Left => 0x50,
            KeyCodes::Down => 0x51,
            KeyCodes::Up => 0x52,
            KeyCodes::NumLock => 0x53,
            KeyCodes::KPSlash => 0x54,
            KeyCodes::KPAsterisk => 0x55,
            KeyCodes::KPMinum => 0x56,
            KeyCodes::KPPlus => 0x57,
            KeyCodes::KPEnter => 0x58,
            KeyCodes::KP1 => 0x59,
            KeyCodes::KP2 => 0x5a,
            KeyCodes::KP3 => 0x5b,
            KeyCodes::KP4 => 0x5c,
            KeyCodes::KP5 => 0x5d,
            KeyCodes::KP6 => 0x5e,
            KeyCodes::KP7 => 0x5f,
            KeyCodes::KP8 => 0x60,
            KeyCodes::KP9 => 0x61,
            KeyCodes::KP0 => 0x62,
            KeyCodes::KPDot => 0x63,
            KeyCodes::K102ND => 0x64,
            KeyCodes::Compose => 0x65,
            KeyCodes::Power => 0x66,
            KeyCodes::KPEqual => 0x67,
            KeyCodes::F13 => 0x68,
            KeyCodes::F14 => 0x69,
            KeyCodes::F15 => 0x6a,
            KeyCodes::F16 => 0x6b,
            KeyCodes::F17 => 0x6c,
            KeyCodes::F18 => 0x6d,
            KeyCodes::F19 => 0x6e,
            KeyCodes::F20 => 0x6f,
            KeyCodes::F21 => 0x70,
            KeyCodes::F22 => 0x71,
            KeyCodes::F23 => 0x72,
            KeyCodes::F24 => 0x73,
            KeyCodes::Open => 0x74,
            KeyCodes::Help => 0x75,
            KeyCodes::Props => 0x76,
            KeyCodes::Front => 0x77,
            KeyCodes::Stop => 0x78,
            KeyCodes::Again => 0x79,
            KeyCodes::Undo => 0x7a,
            KeyCodes::Cut => 0x7b,
            KeyCodes::Copy => 0x7c,
            KeyCodes::Paste => 0x7d,
            KeyCodes::Find => 0x7e,
            KeyCodes::Mute => 0x7f,
            KeyCodes::VolumeUp => 0x80,
            KeyCodes::VolumeDown => 0x81,
            KeyCodes::LockingCapsLock => 0x82,
            KeyCodes::LockingNumLock => 0x83,
            KeyCodes::LockingScrollLock => 0x84,
            KeyCodes::KPComma => 0x85,
            KeyCodes::KPEqualSign => 0x86,
            KeyCodes::RO => 0x87,
            KeyCodes::KATAKANAHIRAGANA => 0x88,
            KeyCodes::YEN => 0x89,
            KeyCodes::HENKAN => 0x8a,
            KeyCodes::MUHENKAN => 0x8b,
            KeyCodes::KPJPCOMMA => 0x8c,
            KeyCodes::INTR7 => 0x8d,
            KeyCodes::INTR8 => 0x8e,
            KeyCodes::INTR9 => 0x8f,
            KeyCodes::HANGEUL => 0x90,
            KeyCodes::HANJA => 0x91,
            KeyCodes::KATAKANA => 0x92,
            KeyCodes::HIRAGANA => 0x93,
            KeyCodes::ZENKAKUHANKAKU => 0x94,
            KeyCodes::LANG6 => 0x95,
            KeyCodes::LANG7 => 0x96,
            KeyCodes::LANG8 => 0x97,
            KeyCodes::LANG9 => 0x98,
            KeyCodes::AlternateErase => 0x99,
            KeyCodes::SysReqAttention => 0x9a,
            KeyCodes::Cancel => 0x9b,
            KeyCodes::Clear => 0x9c,
            KeyCodes::Prior => 0x9d,
            KeyCodes::Return => 0x9e,
            KeyCodes::Separator => 0x9f,
            KeyCodes::Out => 0xa0,
            KeyCodes::Oper => 0xa1,
            KeyCodes::ClearAgain => 0xa2,
            KeyCodes::CrSelProps => 0xa3,
            KeyCodes::ExSel => 0xa4,
            KeyCodes::K00 => 0xb0,
            KeyCodes::K000 => 0xb1,
            KeyCodes::ThousandsSeparator => 0xb2,
            KeyCodes::DecimalSeparator => 0xb3,
            KeyCodes::CurrencyUnit => 0xb4,
            KeyCodes::CurrencySubunit => 0xb5,
            KeyCodes::KPLeftParen => 0xb6,
            KeyCodes::KPRightParen => 0xb7,
            KeyCodes::LeftCtrl => 0xe0,
            KeyCodes::LeftShift => 0xe1,
            KeyCodes::LeftAlt => 0xe2,
            KeyCodes::LeftMeta => 0xe3,
            KeyCodes::RightCtrl => 0xe4,
            KeyCodes::RightShift => 0xe5,
            KeyCodes::RightAlt => 0xe6,
            KeyCodes::RightMeta => 0xe7,
            KeyCodes::MediaPlayPause => 0xe8,
            KeyCodes::MediaStopCD => 0xe9,
            KeyCodes::MediaPreviousSong => 0xea,
            KeyCodes::MediaNextSong => 0xeb,
            KeyCodes::MediaEjectCD => 0xec,
            KeyCodes::MediaVolumeUp => 0xed,
            KeyCodes::MediaVolumeDown => 0xee,
            KeyCodes::MediaMute => 0xef,
            KeyCodes::MediaWWW => 0xf0,
            KeyCodes::MediaBack => 0xf1,
            KeyCodes::MediaForward => 0xf2,
            KeyCodes::MediaStop => 0xf3,
            KeyCodes::MediaFing => 0xf4,
            KeyCodes::MediaScrollUp => 0xf5,
            KeyCodes::MediaScrollDown => 0xf6,
            KeyCodes::MediaEdit => 0xf7,
            KeyCodes::MediaSleep => 0xf8,
            KeyCodes::MediaCoffee => 0xf9,
            KeyCodes::MediaRefresh => 0xfa,
            KeyCodes::MediaCalc => 0xfb,
        }
    }

    /// The HID usage code that stands for this key in a keyboard report.
    #[verifier::when_used_as_spec(spec_code)]
    pub fn code(self) -> (c: u8)
        ensures
            c == self.spec_code(),
    {
        match self {
            KeyCodes::Reserved => 0x00,
            KeyCodes::ErrOvf => 0x01,
            KeyCodes::PostFail => 0x02,
            KeyCodes::ErrorUndefined => 0x03,
            KeyCodes::KeyA => 0x04,
            KeyCodes::KeyB => 0x05,
            KeyCodes::KeyC => 0x06,
            KeyCodes::KeyD => 0x07,
            KeyCodes::KeyE => 0x08,
            KeyCodes::KeyF => 0x09,
            KeyCodes::KeyG => 0x0a,
            KeyCodes::KeyH => 0x0b,
            KeyCodes::KeyI => 0x0c,
            KeyCodes::KeyJ => 0x0d,
            KeyCodes::KeyK => 0x0e,
            KeyCodes::KeyL => 0x0f,
            KeyCodes::KeyM => 0x10,
            KeyCodes::KeyN => 0x11,
            KeyCodes::KeyO => 0x12,
            KeyCodes::KeyP => 0x13,
            KeyCodes::KeyQ => 0x14,
            KeyCodes::KeyR => 0x15,
            KeyCodes::KeyS => 0x16,
            KeyCodes::KeyT => 0x17,
            KeyCodes::KeyU => 0x18,
            KeyCodes::KeyV => 0x19,
            KeyCodes::KeyW => 0x1a,
            KeyCodes::KeyX => 0x1b,
            KeyCodes::KeyY => 0x1c,
            KeyCodes::KeyZ => 0x1d,
            KeyCodes::Key1 => 0x1e,
            KeyCodes::Key2 => 0x1f,
            KeyCodes::Key3 => 0x20,
            KeyCodes::Key4 => 0x21,
            KeyCodes::Key5 => 0x22,
            KeyCodes::Key6 => 0x23,
            KeyCodes::Key7 => 0x24,
            KeyCodes::Key8 => 0x25,
            KeyCodes::Key9 => 0x26,
            KeyCodes::Key0 => 0x27,
            KeyCodes::Enter => 0x28,
            KeyCodes::Escape => 0x29,
            KeyCodes::BackSpace => 0x2a,
            KeyCodes::Tab => 0x2b,
            KeyCodes::Space => 0x2c,
            KeyCodes::Minus => 0x2d,
            KeyCodes::Equal => 0x2e,
            KeyCodes::LeftBrace => 0x2f,
            KeyCodes::RightBrace => 0x30,
            KeyCodes::BackSlash => 0x31,
            KeyCodes::HashTilde => 0x32,
            KeyCodes::SemiColon => 0x33,
            KeyCodes::Apostrophe => 0x34,
            KeyCodes::Grave => 0x35,
            KeyCodes::Comma => 0x36,
            KeyCodes::Dot => 0x37,
            KeyCodes::Slash => 0x38,
            KeyCodes::CapsLock => 0x39,
            KeyCodes::F1 => 0x3a,
            KeyCodes::F2 => 0x3b,
            KeyCodes::F3 => 0x3c,
            KeyCodes::F4 => 0x3d,
            KeyCodes::F5 => 0x3e,
            KeyCodes::F6 => 0x3f,
            KeyCodes::F7 => 0x40,
            KeyCodes::F8 => 0x41,
            KeyCodes::F9 => 0x42,
            KeyCodes::F10 => 0x43,
            KeyCodes::F11 => 0x44,
            KeyCodes::F12 => 0x45,
            KeyCodes::PrintScreen => 0x46,
            KeyCodes::ScrollLock => 0x47,
            KeyCodes::Pause => 0x48,
            KeyCodes::Insert => 0x49,
            KeyCodes::Home => 0x4a,
            KeyCodes::PageUp => 0x4b,
            KeyCodes::Delete => 0x4c,
            KeyCodes::End => 0x4d,
            KeyCodes::PageDown => 0x4e,
            KeyCodes::Right => 0x4f,
            KeyCodes::Left => 0x50,
            KeyCodes::Down => 0x51,
            KeyCodes::Up => 0x52,
            KeyCodes::NumLock => 0x53,
            KeyCodes::KPSlash => 0x54,
            KeyCodes::KPAsterisk => 0x55,
            KeyCodes::KPMinum => 0x56,
            KeyCodes::KPPlus => 0x57,
            KeyCodes::KPEnter => 0x58,
            KeyCodes::KP1 => 0x59,
            KeyCodes::KP2 => 0x5a,
            KeyCodes::KP3 => 0x5b,
            KeyCodes::KP4 => 0x5c,
            KeyCodes::KP5 => 0x5d,
            KeyCodes::KP6 => 0x5e,
            KeyCodes::KP7 => 0x5f,
            KeyCodes::KP8 => 0x60,
            KeyCodes::KP9 => 0x61,
            KeyCodes::KP0 => 0x62,
            KeyCodes::KPDot => 0x63,
            KeyCodes::K102ND => 0x64,
            KeyCodes::Compose => 0x65,
            KeyCodes::Power => 0x66,
            KeyCodes::KPEqual => 0x67,
            KeyCodes::F13 => 0x68,
            KeyCodes::F14 => 0x69,
            KeyCodes::F15 => 0x6a,
            KeyCodes::F16 => 0x6b,
            KeyCodes::F17 => 0x6c,
            KeyCodes::F18 => 0x6d,
            KeyCodes::F19 => 0x6e,
            KeyCodes::F20 => 0x6f,
            KeyCodes::F21 => 0x70,
            KeyCodes::F22 => 0x71,
            KeyCodes::F23 => 0x72,
            KeyCodes::F24 => 0x73,
            KeyCodes::Open => 0x74,
            KeyCodes::Help => 0x75,
            KeyCodes::Props => 0x76,
            KeyCodes::Front => 0x77,
            KeyCodes::Stop => 0x78,
            KeyCodes::Again => 0x79,
            KeyCodes::Undo => 0x7a,
            KeyCodes::Cut => 0x7b,
            KeyCodes::Copy => 0x7c,
            KeyCodes::Paste => 0x7d,
            KeyCodes::Find => 0x7e,
            KeyCodes::Mute => 0x7f,
            KeyCodes::VolumeUp => 0x80,
            KeyCodes::VolumeDown => 0x81,
            KeyCodes::LockingCapsLock => 0x82,
            KeyCodes::LockingNumLock => 0x83,
            KeyCodes::LockingScrollLock => 0x84,
            KeyCodes::KPComma => 0x85,
            KeyCodes::KPEqualSign => 0x86,
            KeyCodes::RO => 0x87,
            KeyCodes::KATAKANAHIRAGANA => 0x88,
            KeyCodes::YEN => 0x89,
            KeyCodes::HENKAN => 0x8a,
            KeyCodes::MUHENKAN => 0x8b,
            KeyCodes::KPJPCOMMA => 0x8c,
            KeyCodes::INTR7 => 0x8d,
            KeyCodes::INTR8 => 0x8e,
            KeyCodes::INTR9 => 0x8f,
            KeyCodes::HANGEUL => 0x90,
            KeyCodes::HANJA => 0x91,
            KeyCodes::KATAKANA => 0x92,
            KeyCodes::HIRAGANA => 0x93,
            KeyCodes::ZENKAKUHANKAKU => 0x94,
            KeyCodes::LANG6 => 0x95,
            KeyCodes::LANG7 => 0x96,
            KeyCodes::LANG8 => 0x97,
            KeyCodes::LANG9 => 0x98,
            KeyCodes::AlternateErase => 0x99,
            KeyCodes::SysReqAttention => 0x9a,
            KeyCodes::Cancel => 0x9b,
            KeyCodes::Clear => 0x9c,
            KeyCodes::Prior => 0x9d,
            KeyCodes::Return => 0x9e,
            KeyCodes::Separator => 0x9f,
            KeyCodes::Out => 0xa0,
            KeyCodes::Oper => 0xa1,
            KeyCodes::ClearAgain => 0xa2,
            KeyCodes::CrSelProps => 0xa3,
            KeyCodes::ExSel => 0xa4,
            KeyCodes::K00 => 0xb0,
            KeyCodes::K000 => 0xb1,
            KeyCodes::ThousandsSeparator => 0xb2,
            KeyCodes::DecimalSeparator => 0xb3,
            KeyCodes::CurrencyUnit => 0xb4,
            KeyCodes::CurrencySubunit => 0xb5,
            KeyCodes::KPLeftParen => 0xb6,
            KeyCodes::KPRightParen => 0xb7,
            KeyCodes::LeftCtrl => 0xe0,
            KeyCodes::LeftShift => 0xe1,
            KeyCodes::LeftAlt => 0xe2,
            KeyCodes::LeftMeta => 0xe3,
            KeyCodes::RightCtrl => 0xe4,
            KeyCodes::RightShift => 0xe5,
            KeyCodes::RightAlt => 0xe6,
            KeyCodes::RightMeta => 0xe7,
            KeyCodes::MediaPlayPause => 0xe8,
            KeyCodes::MediaStopCD => 0xe9,
            KeyCodes::MediaPreviousSong => 0xea,
            KeyCodes::MediaNextSong => 0xeb,
            KeyCodes::MediaEjectCD => 0xec,
            KeyCodes::MediaVolumeUp => 0xed,
            KeyCodes::MediaVolumeDown => 0xee,
            KeyCodes::MediaMute => 0xef,
            KeyCodes::MediaWWW => 0xf0,
            KeyCodes::MediaBack => 0xf1,
            KeyCodes::MediaForward => 0xf2,
            KeyCodes::MediaStop => 0xf3,
            KeyCodes::MediaFing => 0xf4,
            KeyCodes::MediaScrollUp => 0xf5,
            KeyCodes::MediaScrollDown => 0xf6,
            KeyCodes::MediaEdit => 0xf7,
            KeyCodes::MediaSleep => 0xf8,
            KeyCodes::MediaCoffee => 0xf9,
            KeyCodes::MediaRefresh => 0xfa,
            KeyCodes::MediaCalc => 0xfb,
        }
    }
}

/// The eight modifier keys, one per bit of the HID modifier byte, in the
/// fixed boot-protocol order (left/right x ctrl/shift/alt/gui).
#[derive(Clone, Copy, Debug, PartialEq, Eq, Structural)]
pub enum ModifierMasks {
    LeftCtrl,
    LeftShift,
    LeftAlt,
    LeftGui,
    RightCtrl,
    RightShift,
    RightAlt,
    RightGui,
}

impl ModifierMasks {
    /// The single bit this modifier sets in the modifier byte.
    pub open spec fn spec_mask(self) -> u8 {
        match self {
            ModifierMasks::LeftCtrl => 1,
            ModifierMasks::LeftShift => 2,
            ModifierMasks::LeftAlt => 4,
            ModifierMasks::LeftGui => 8,
            ModifierMasks::RightCtrl => 16,
            ModifierMasks::RightShift => 32,
            ModifierMasks::RightAlt => 64,
            ModifierMasks::RightGui => 128,
        }
    }

    /// The single bit this modifier sets in the modifier byte.
    #[verifier::when_used_as_spec(spec_mask)]
    pub fn mask(self) -> (m: u8)
        ensures
            m == self.spec_mask(),
    {
        match self {
            ModifierMasks::LeftCtrl => 1,
            ModifierMasks::LeftShift => 2,
            ModifierMasks::LeftAlt => 4,
            ModifierMasks::LeftGui => 8,
            ModifierMasks::RightCtrl => 16,
            ModifierMasks::RightShift => 32,
            ModifierMasks::RightAlt => 64,
            ModifierMasks::RightGui => 128,
        }
    }
}

} // verus!
