//! Virtual keys: the identifiers the platform gives to physical keys and
//! mouse buttons, and the numeric code of each.

use core::cmp::Ordering;
use vstd::prelude::*;
use vstd::std_specs::cmp::PartialOrdSpecImpl;

verus! {

/// A virtual key. Every key has a numeric code between `0x01` and `0xFE`;
/// the variants are listed in ascending order of that code. Codes in that
/// range to which no variant belongs are not recognized.
#[derive(Clone, Copy, Debug, PartialEq, Eq, Ord, Hash, Structural)]
#[allow(non_camel_case_types)]
pub enum VK {
    LeftButton,
    RightButton,
    Cancel,
    MiddleButton,
    ExtraButton1,
    ExtraButton2,
    Back,
    Tab,
    Clear,
    Return,
    Shift,
    Control,
    Menu,
    Pause,
    CapsLock,
    Hangul,
    Junja,
    Final,
    Kanji,
    Escape,
    Convert,
    NonConvert,
    Accept,
    ModeChange,
    Space,
    Prior,
    Next,
    End,
    Home,
    Left,
    Up,
    Right,
    Down,
    Select,
    Print,
    Execute,
    Snapshot,
    Insert,
    Delete,
    Help,
    N0,
    N1,
    N2,
    N3,
    N4,
    N5,
    N6,
    N7,
    N8,
    N9,
    A,
    B,
    C,
    D,
    E,
    F,
    G,
    H,
    I,
    J,
    K,
    L,
    M,
    N,
    O,
    P,
    Q,
    R,
    S,
    T,
    U,
    V,
    W,
    X,
    Y,
    Z,
    LeftWindows,
    RightWindows,
    Application,
    Sleep,
    Numpad0,
    Numpad1,
    Numpad2,
    Numpad3,
    Numpad4,
    Numpad5,
    Numpad6,
    Numpad7,
    Numpad8,
    Numpad9,
    Multiply,
    Add,
    Separator,
    Subtract,
    Decimal,
    Divide,
    F1,
    F2,
    F3,
    F4,
    F5,
    F6,
    F7,
    F8,
    F9,
    F10,
    F11,
    F12,
    F13,
    F14,
    F15,
    F16,
    F17,
    F18,
    F19,
    F20,
    F21,
    F22,
    F23,
    F24,
    NumLock,
    ScrollLock,
    Fujitsu_Jisho,
    Fujitsu_Masshou,
    Fujitsu_Touroku,
    Fujitsu_Loya,
    Fujitsu_Roya,
    LeftShift,
    RightShift,
    LeftControl,
    RightControl,
    LeftMenu,
    RightMenu,
    BrowserBack,
    BrowserForward,
    BrowserRefresh,
    BrowserStop,
    BrowserSearch,
    BrowserFavorites,
    BrowserHome,
    VolumeMute,
    VolumeDown,
    VolumeUp,
    MediaNextTrack,
    MediaPrevTrack,
    MediaStop,
    MediaPlayPause,
    LaunchMail,
    LaunchMediaSelect,
    LaunchApplication1,
    LaunchApplication2,
    OEM1,
    OEMPlus,
    OEMComma,
    OEMMinus,
    OEMPeriod,
    OEM2,
    OEM3,
    OEM4,
    OEM5,
    OEM6,
    OEM7,
    OEM8,
    OEMAX,
    OEM102,
    ICOHelp,
    ICO00,
    ProcessKey,
    ICOClear,
    Packet,
    OEMReset,
    OEMJump,
    OEMPA1,
    OEMPA2,
    OEMPA3,
    OEMWSCtrl,
    OEMCUSel,
    OEMATTN,
    OEMFinish,
    OEMCopy,
    OEMAuto,
    OEMENLW,
    OEMBackTab,
    ATTN,
    CRSel,
    EXSel,
    EREOF,
    Play,
    Zoom,
    Noname,
    PA1,
    OEMClear,
}

impl VK {
    /// The numeric code of the key.
    pub open spec fn code(self) -> u32 {
        match self {
            VK::LeftButton => 0x01,
            VK::RightButton => 0x02,
            VK::Cancel => 0x03,
            VK::MiddleButton => 0x04,
            VK::ExtraButton1 => 0x05,
            VK::ExtraButton2 => 0x06,
            VK::Back => 0x08,
            VK::Tab => 0x09,
            VK::Clear => 0x0C,
            VK::Return => 0x0D,
            VK::Shift => 0x10,
            VK::Control => 0x11,
            VK::Menu => 0x12,
            VK::Pause => 0x13,
            VK::CapsLock => 0x14,
            VK::Hangul => 0x15,
            VK::Junja => 0x17,
            VK::Final => 0x18,
            VK::Kanji => 0x19,
            VK::Escape => 0x1B,
            VK::Convert => 0x1C,
            VK::NonConvert => 0x1D,
            VK::Accept => 0x1E,
            VK::ModeChange => 0x1F,
            VK::Space => 0x20,
            VK::Prior => 0x21,
            VK::Next => 0x22,
            VK::End => 0x23,
            VK::Home => 0x24,
            VK::Left => 0x25,
            VK::Up => 0x26,
            VK::Right => 0x27,
            VK::Down => 0x28,
            VK::Select => 0x29,
            VK::Print => 0x2A,
            VK::Execute => 0x2B,
            VK::Snapshot => 0x2C,
            VK::Insert => 0x2D,
            VK::Delete => 0x2E,
            VK::Help => 0x2F,
            VK::N0 => 0x30,
            VK::N1 => 0x31,
            VK::N2 => 0x32,
            VK::N3 => 0x33,
            VK::N4 => 0x34,
            VK::N5 => 0x35,
            VK::N6 => 0x36,
            VK::N7 => 0x37,
            VK::N8 => 0x38,
            VK::N9 => 0x39,
            VK::A => 0x41,
            VK::B => 0x42,
            VK::C => 0x43,
            VK::D => 0x44,
            VK::E => 0x45,
            VK::F => 0x46,
            VK::G => 0x47,
            VK::H => 0x48,
            VK::I => 0x49,
            VK::J => 0x4A,
            VK::K => 0x4B,
            VK::L => 0x4C,
            VK::M => 0x4D,
            VK::N => 0x4E,
            VK::O => 0x4F,
            VK::P => 0x50,
            VK::Q => 0x51,
            VK::R => 0x52,
            VK::S => 0x53,
            VK::T => 0x54,
            VK::U => 0x55,
            VK::V => 0x56,
            VK::W => 0x57,
            VK::X => 0x58,
            VK::Y => 0x59,
            VK::Z => 0x5A,
            VK::LeftWindows => 0x5B,
            VK::RightWindows => 0x5C,
            VK::Application => 0x5D,
            VK::Sleep => 0x5F,
            VK::Numpad0 => 0x60,
            VK::Numpad1 => 0x61,
            VK::Numpad2 => 0x62,
            VK::Numpad3 => 0x63,
            VK::Numpad4 => 0x64,
            VK::Numpad5 => 0x65,
            VK::Numpad6 => 0x66,
            VK::Numpad7 => 0x67,
            VK::Numpad8 => 0x68,
            VK::Numpad9 => 0x69,
            VK::Multiply => 0x6A,
            VK::Add => 0x6B,
            VK::Separator => 0x6C,
            VK::Subtract => 0x6D,
            VK::Decimal => 0x6E,
            VK::Divide => 0x6F,
            VK::F1 => 0x70,
            VK::F2 => 0x71,
            VK::F3 => 0x72,
            VK::F4 => 0x73,
            VK::F5 => 0x74,
            VK::F6 => 0x75,
            VK::F7 => 0x76,
            VK::F8 => 0x77,
            VK::F9 => 0x78,
            VK::F10 => 0x79,
            VK::F11 => 0x7A,
            VK::F12 => 0x7B,
            VK::F13 => 0x7C,
            VK::F14 => 0x7D,
            VK::F15 => 0x7E,
            VK::F16 => 0x7F,
            VK::F17 => 0x80,
            VK::F18 => 0x81,
            VK::F19 => 0x82,
            VK::F20 => 0x83,
            VK::F21 => 0x84,
            VK::F22 => 0x85,
            VK::F23 => 0x86,
            VK::F24 => 0x87,
            VK::NumLock => 0x90,
            VK::ScrollLock => 0x91,
            VK::Fujitsu_Jisho => 0x92,
            VK::Fujitsu_Masshou => 0x93,
            VK::Fujitsu_Touroku => 0x94,
            VK::Fujitsu_Loya => 0x95,
            VK::Fujitsu_Roya => 0x96,
            VK::LeftShift => 0xA0,
            VK::RightShift => 0xA1,
            VK::LeftControl => 0xA2,
            VK::RightControl => 0xA3,
            VK::LeftMenu => 0xA4,
            VK::RightMenu => 0xA5,
            VK::BrowserBack => 0xA6,
            VK::BrowserForward => 0xA7,
            VK::BrowserRefresh => 0xA8,
            VK::BrowserStop => 0xA9,
            VK::BrowserSearch => 0xAA,
            VK::BrowserFavorites => 0xAB,
            VK::BrowserHome => 0xAC,
            VK::VolumeMute => 0xAD,
            VK::VolumeDown => 0xAE,
            VK::VolumeUp => 0xAF,
            VK::MediaNextTrack => 0xB0,
            VK::MediaPrevTrack => 0xB1,
            VK::MediaStop => 0xB2,
            VK::MediaPlayPause => 0xB3,
            VK::LaunchMail => 0xB4,
            VK::LaunchMediaSelect => 0xB5,
            VK::LaunchApplication1 => 0xB6,
            VK::LaunchApplication2 => 0xB7,
            VK::OEM1 => 0xBA,
            VK::OEMPlus => 0xBB,
            VK::OEMComma => 0xBC,
            VK::OEMMinus => 0xBD,
            VK::OEMPeriod => 0xBE,
            VK::OEM2 => 0xBF,
            VK::OEM3 => 0xC0,
            VK::OEM4 => 0xDB,
            VK::OEM5 => 0xDC,
            VK::OEM6 => 0xDD,
            VK::OEM7 => 0xDE,
            VK::OEM8 => 0xDF,
            VK::OEMAX => 0xE1,
            VK::OEM102 => 0xE2,
            VK::ICOHelp => 0xE3,
            VK::ICO00 => 0xE4,
            VK::ProcessKey => 0xE5,
            VK::ICOClear => 0xE6,
            VK::Packet => 0xE7,
            VK::OEMReset => 0xE9,
            VK::OEMJump => 0xEA,
            VK::OEMPA1 => 0xEB,
            VK::OEMPA2 => 0xEC,
            VK::OEMPA3 => 0xED,
            VK::OEMWSCtrl => 0xEE,
            VK::OEMCUSel => 0xEF,
            VK::OEMATTN => 0xF0,
            VK::OEMFinish => 0xF1,
            VK::OEMCopy => 0xF2,
            VK::OEMAuto => 0xF3,
            VK::OEMENLW => 0xF4,
            VK::OEMBackTab => 0xF5,
            VK::ATTN => 0xF6,
            VK::CRSel => 0xF7,
            VK::EXSel => 0xF8,
            VK::EREOF => 0xF9,
            VK::Play => 0xFA,
            VK::Zoom => 0xFB,
            VK::Noname => 0xFC,
            VK::PA1 => 0xFD,
            VK::OEMClear => 0xFE,
        }
    }

    /// The key that has the given code, if there is one.
    pub open spec fn spec_from_u32(code: u32) -> Option<VK> {
        if exists|k: VK| k.code() == code {
            Some(choose|k: VK| k.code() == code)
        } else {
            None
        }
    }

    /// Whether some key has the given code.
    pub open spec fn is_recognized(code: u32) -> bool {
        exists|k: VK| k.code() == code
    }

    /// Returns the numeric code of the key.
    pub fn as_u32(&self) -> (c: u32)
        ensures
            c == self.code(),
            0x01 <= c <= 0xFE,
    {
        match self {
            VK::LeftButton => 0x01,
            VK::RightButton => 0x02,
            VK::Cancel => 0x03,
            VK::MiddleButton => 0x04,
            VK::ExtraButton1 => 0x05,
            VK::ExtraButton2 => 0x06,
            VK::Back => 0x08,
            VK::Tab => 0x09,
            VK::Clear => 0x0C,
            VK::Return => 0x0D,
            VK::Shift => 0x10,
            VK::Control => 0x11,
            VK::Menu => 0x12,
            VK::Pause => 0x13,
            VK::CapsLock => 0x14,
            VK::Hangul => 0x15,
            VK::Junja => 0x17,
            VK::Final => 0x18,
            VK::Kanji => 0x19,
            VK::Escape => 0x1B,
            VK::Convert => 0x1C,
            VK::NonConvert => 0x1D,
            VK::Accept => 0x1E,
            VK::ModeChange => 0x1F,
            VK::Space => 0x20,
            VK::Prior => 0x21,
            VK::Next => 0x22,
            VK::End => 0x23,
            VK::Home => 0x24,
            VK::Left => 0x25,
            VK::Up => 0x26,
            VK::Right => 0x27,
            VK::Down => 0x28,
            VK::Select => 0x29,
            VK::Print => 0x2A,
            VK::Execute => 0x2B,
            VK::Snapshot => 0x2C,
            VK::Insert => 0x2D,
            VK::Delete => 0x2E,
            VK::Help => 0x2F,
            VK::N0 => 0x30,
            VK::N1 => 0x31,
            VK::N2 => 0x32,
            VK::N3 => 0x33,
            VK::N4 => 0x34,
            VK::N5 => 0x35,
            VK::N6 => 0x36,
            VK::N7 => 0x37,
            VK::N8 => 0x38,
            VK::N9 => 0x39,
            VK::A => 0x41,
            VK::B => 0x42,
            VK::C => 0x43,
            VK::D => 0x44,
            VK::E => 0x45,
            VK::F => 0x46,
            VK::G => 0x47,
            VK::H => 0x48,
            VK::I => 0x49,
            VK::J => 0x4A,
            VK::K => 0x4B,
            VK::L => 0x4C,
            VK::M => 0x4D,
            VK::N => 0x4E,
            VK::O => 0x4F,
            VK::P => 0x50,
            VK::Q => 0x51,
            VK::R => 0x52,
            VK::S => 0x53,
            VK::T => 0x54,
            VK::U => 0x55,
            VK::V => 0x56,
            VK::W => 0x57,
            VK::X => 0x58,
            VK::Y => 0x59,
            VK::Z => 0x5A,
            VK::LeftWindows => 0x5B,
            VK::RightWindows => 0x5C,
            VK::Application => 0x5D,
            VK::Sleep => 0x5F,
            VK::Numpad0 => 0x60,
            VK::Numpad1 => 0x61,
            VK::Numpad2 => 0x62,
            VK::Numpad3 => 0x63,
            VK::Numpad4 => 0x64,
            VK::Numpad5 => 0x65,
            VK::Numpad6 => 0x66,
            VK::Numpad7 => 0x67,
            VK::Numpad8 => 0x68,
            VK::Numpad9 => 0x69,
            VK::Multiply => 0x6A,
            VK::Add => 0x6B,
            VK::Separator => 0x6C,
            VK::Subtract => 0x6D,
            VK::Decimal => 0x6E,
            VK::Divide => 0x6F,
            VK::F1 => 0x70,
            VK::F2 => 0x71,
            VK::F3 => 0x72,
            VK::F4 => 0x73,
            VK::F5 => 0x74,
            VK::F6 => 0x75,
            VK::F7 => 0x76,
            VK::F8 => 0x77,
            VK::F9 => 0x78,
            VK::F10 => 0x79,
            VK::F11 => 0x7A,
            VK::F12 => 0x7B,
            VK::F13 => 0x7C,
            VK::F14 => 0x7D,
            VK::F15 => 0x7E,
            VK::F16 => 0x7F,
            VK::F17 => 0x80,
            VK::F18 => 0x81,
            VK::F19 => 0x82,
            VK::F20 => 0x83,
            VK::F21 => 0x84,
            VK::F22 => 0x85,
            VK::F23 => 0x86,
            VK::F24 => 0x87,
            VK::NumLock => 0x90,
            VK::ScrollLock => 0x91,
            VK::Fujitsu_Jisho => 0x92,
            VK::Fujitsu_Masshou => 0x93,
            VK::Fujitsu_Touroku => 0x94,
            VK::Fujitsu_Loya => 0x95,
            VK::Fujitsu_Roya => 0x96,
            VK::LeftShift => 0xA0,
            VK::RightShift => 0xA1,
            VK::LeftControl => 0xA2,
            VK::RightControl => 0xA3,
            VK::LeftMenu => 0xA4,
            VK::RightMenu => 0xA5,
            VK::BrowserBack => 0xA6,
            VK::BrowserForward => 0xA7,
            VK::BrowserRefresh => 0xA8,
            VK::BrowserStop => 0xA9,
            VK::BrowserSearch => 0xAA,
            VK::BrowserFavorites => 0xAB,
            VK::BrowserHome => 0xAC,
            VK::VolumeMute => 0xAD,
            VK::VolumeDown => 0xAE,
            VK::VolumeUp => 0xAF,
            VK::MediaNextTrack => 0xB0,
            VK::MediaPrevTrack => 0xB1,
            VK::MediaStop => 0xB2,
            VK::MediaPlayPause => 0xB3,
            VK::LaunchMail => 0xB4,
            VK::LaunchMediaSelect => 0xB5,
            VK::LaunchApplication1 => 0xB6,
            VK::LaunchApplication2 => 0xB7,
            VK::OEM1 => 0xBA,
            VK::OEMPlus => 0xBB,
            VK::OEMComma => 0xBC,
            VK::OEMMinus => 0xBD,
            VK::OEMPeriod => 0xBE,
            VK::OEM2 => 0xBF,
            VK::OEM3 => 0xC0,
            VK::OEM4 => 0xDB,
            VK::OEM5 => 0xDC,
            VK::OEM6 => 0xDD,
            VK::OEM7 => 0xDE,
            VK::OEM8 => 0xDF,
            VK::OEMAX => 0xE1,
            VK::OEM102 => 0xE2,
            VK::ICOHelp => 0xE3,
            VK::ICO00 => 0xE4,
            VK::ProcessKey => 0xE5,
            VK::ICOClear => 0xE6,
            VK::Packet => 0xE7,
            VK::OEMReset => 0xE9,
            VK::OEMJump => 0xEA,
            VK::OEMPA1 => 0xEB,
            VK::OEMPA2 => 0xEC,
            VK::OEMPA3 => 0xED,
            VK::OEMWSCtrl => 0xEE,
            VK::OEMCUSel => 0xEF,
            VK::OEMATTN => 0xF0,
            VK::OEMFinish => 0xF1,
            VK::OEMCopy => 0xF2,
            VK::OEMAuto => 0xF3,
            VK::OEMENLW => 0xF4,
            VK::OEMBackTab => 0xF5,
            VK::ATTN => 0xF6,
            VK::CRSel => 0xF7,
            VK::EXSel => 0xF8,
            VK::EREOF => 0xF9,
            VK::Play => 0xFA,
            VK::Zoom => 0xFB,
            VK::Noname => 0xFC,
            VK::PA1 => 0xFD,
            VK::OEMClear => 0xFE,
        }
    }

    /// Looks a key up by its numeric code. A code that belongs to no key
    /// gives `None`.
    pub fn from_u32(code: u32) -> (r: Option<VK>)
        ensures
            r == VK::spec_from_u32(code),
            r is Some <==> VK::is_recognized(code),
            r matches Some(k) ==> k.code() == code,
    {
        let r = match code {
            0x01 => Some(VK::LeftButton),
            0x02 => Some(VK::RightButton),
            0x03 => Some(VK::Cancel),
            0x04 => Some(VK::MiddleButton),
            0x05 => Some(VK::ExtraButton1),
            0x06 => Some(VK::ExtraButton2),
            0x08 => Some(VK::Back),
            0x09 => Some(VK::Tab),
            0x0C => Some(VK::Clear),
            0x0D => Some(VK::Return),
            0x10 => Some(VK::Shift),
            0x11 => Some(VK::Control),
            0x12 => Some(VK::Menu),
            0x13 => Some(VK::Pause),
            0x14 => Some(VK::CapsLock),
            0x15 => Some(VK::Hangul),
            0x17 => Some(VK::Junja),
            0x18 => Some(VK::Final),
            0x19 => Some(VK::Kanji),
            0x1B => Some(VK::Escape),
            0x1C => Some(VK::Convert),
            0x1D => Some(VK::NonConvert),
            0x1E => Some(VK::Accept),
            0x1F => Some(VK::ModeChange),
            0x20 => Some(VK::Space),
            0x21 => Some(VK::Prior),
            0x22 => Some(VK::Next),
            0x23 => Some(VK::End),
            0x24 => Some(VK::Home),
            0x25 => Some(VK::Left),
            0x26 => Some(VK::Up),
            0x27 => Some(VK::Right),
            0x28 => Some(VK::Down),
            0x29 => Some(VK::Select),
            0x2A => Some(VK::Print),
            0x2B => Some(VK::Execute),
            0x2C => Some(VK::Snapshot),
            0x2D => Some(VK::Insert),
            0x2E => Some(VK::Delete),
            0x2F => Some(VK::Help),
            0x30 => Some(VK::N0),
            0x31 => Some(VK::N1),
            0x32 => Some(VK::N2),
            0x33 => Some(VK::N3),
            0x34 => Some(VK::N4),
            0x35 => Some(VK::N5),
            0x36 => Some(VK::N6),
            0x37 => Some(VK::N7),
            0x38 => Some(VK::N8),
            0x39 => Some(VK::N9),
            0x41 => Some(VK::A),
            0x42 => Some(VK::B),
            0x43 => Some(VK::C),
            0x44 => Some(VK::D),
            0x45 => Some(VK::E),
            0x46 => Some(VK::F),
            0x47 => Some(VK::G),
            0x48 => Some(VK::H),
            0x49 => Some(VK::I),
            0x4A => Some(VK::J),
            0x4B => Some(VK::K),
            0x4C => Some(VK::L),
            0x4D => Some(VK::M),
            0x4E => Some(VK::N),
            0x4F => Some(VK::O),
            0x50 => Some(VK::P),
            0x51 => Some(VK::Q),
            0x52 => Some(VK::R),
            0x53 => Some(VK::S),
            0x54 => Some(VK::T),
            0x55 => Some(VK::U),
            0x56 => Some(VK::V),
            0x57 => Some(VK::W),
            0x58 => Some(VK::X),
            0x59 => Some(VK::Y),
            0x5A => Some(VK::Z),
            0x5B => Some(VK::LeftWindows),
            0x5C => Some(VK::RightWindows),
            0x5D => Some(VK::Application),
            0x5F => Some(VK::Sleep),
            0x60 => Some(VK::Numpad0),
            0x61 => Some(VK::Numpad1),
            0x62 => Some(VK::Numpad2),
            0x63 => Some(VK::Numpad3),
            0x64 => Some(VK::Numpad4),
            0x65 => Some(VK::Numpad5),
            0x66 => Some(VK::Numpad6),
            0x67 => Some(VK::Numpad7),
            0x68 => Some(VK::Numpad8),
            0x69 => Some(VK::Numpad9),
            0x6A => Some(VK::Multiply),
            0x6B => Some(VK::Add),
            0x6C => Some(VK::Separator),
            0x6D => Some(VK::Subtract),
            0x6E => Some(VK::Decimal),
            0x6F => Some(VK::Divide),
            0x70 => Some(VK::F1),
            0x71 => Some(VK::F2),
            0x72 => Some(VK::F3),
            0x73 => Some(VK::F4),
            0x74 => Some(VK::F5),
            0x75 => Some(VK::F6),
            0x76 => Some(VK::F7),
            0x77 => Some(VK::F8),
            0x78 => Some(VK::F9),
            0x79 => Some(VK::F10),
            0x7A => Some(VK::F11),
            0x7B => Some(VK::F12),
            0x7C => Some(VK::F13),
            0x7D => Some(VK::F14),
            0x7E => Some(VK::F15),
            0x7F => Some(VK::F16),
            0x80 => Some(VK::F17),
            0x81 => Some(VK::F18),
            0x82 => Some(VK::F19),
            0x83 => Some(VK::F20),
            0x84 => Some(VK::F21),
            0x85 => Some(VK::F22),
            0x86 => Some(VK::F23),
            0x87 => Some(VK::F24),
            0x90 => Some(VK::NumLock),
            0x91 => Some(VK::ScrollLock),
            0x92 => Some(VK::Fujitsu_Jisho),
            0x93 => Some(VK::Fujitsu_Masshou),
            0x94 => Some(VK::Fujitsu_Touroku),
            0x95 => Some(VK::Fujitsu_Loya),
            0x96 => Some(VK::Fujitsu_Roya),
            0xA0 => Some(VK::LeftShift),
            0xA1 => Some(VK::RightShift),
            0xA2 => Some(VK::LeftControl),
            0xA3 => Some(VK::RightControl),
            0xA4 => Some(VK::LeftMenu),
            0xA5 => Some(VK::RightMenu),
            0xA6 => Some(VK::BrowserBack),
            0xA7 => Some(VK::BrowserForward),
            0xA8 => Some(VK::BrowserRefresh),
            0xA9 => Some(VK::BrowserStop),
            0xAA => Some(VK::BrowserSearch),
            0xAB => Some(VK::BrowserFavorites),
            0xAC => Some(VK::BrowserHome),
            0xAD => Some(VK::VolumeMute),
            0xAE => Some(VK::VolumeDown),
            0xAF => Some(VK::VolumeUp),
            0xB0 => Some(VK::MediaNextTrack),
            0xB1 => Some(VK::MediaPrevTrack),
            0xB2 => Some(VK::MediaStop),
            0xB3 => Some(VK::MediaPlayPause),
            0xB4 => Some(VK::LaunchMail),
            0xB5 => Some(VK::LaunchMediaSelect),
            0xB6 => Some(VK::LaunchApplication1),
            0xB7 => Some(VK::LaunchApplication2),
            0xBA => Some(VK::OEM1),
            0xBB => Some(VK::OEMPlus),
            0xBC => Some(VK::OEMComma),
            0xBD => Some(VK::OEMMinus),
            0xBE => Some(VK::OEMPeriod),
            0xBF => Some(VK::OEM2),
            0xC0 => Some(VK::OEM3),
            0xDB => Some(VK::OEM4),
            0xDC => Some(VK::OEM5),
            0xDD => Some(VK::OEM6),
            0xDE => Some(VK::OEM7),
            0xDF => Some(VK::OEM8),
            0xE1 => Some(VK::OEMAX),
            0xE2 => Some(VK::OEM102),
            0xE3 => Some(VK::ICOHelp),
            0xE4 => Some(VK::ICO00),
            0xE5 => Some(VK::ProcessKey),
            0xE6 => Some(VK::ICOClear),
            0xE7 => Some(VK::Packet),
            0xE9 => Some(VK::OEMReset),
            0xEA => Some(VK::OEMJump),
            0xEB => Some(VK::OEMPA1),
            0xEC => Some(VK::OEMPA2),
            0xED => Some(VK::OEMPA3),
            0xEE => Some(VK::OEMWSCtrl),
            0xEF => Some(VK::OEMCUSel),
            0xF0 => Some(VK::OEMATTN),
            0xF1 => Some(VK::OEMFinish),
            0xF2 => Some(VK::OEMCopy),
            0xF3 => Some(VK::OEMAuto),
            0xF4 => Some(VK::OEMENLW),
            0xF5 => Some(VK::OEMBackTab),
            0xF6 => Some(VK::ATTN),
            0xF7 => Some(VK::CRSel),
            0xF8 => Some(VK::EXSel),
            0xF9 => Some(VK::EREOF),
            0xFA => Some(VK::Play),
            0xFB => Some(VK::Zoom),
            0xFC => Some(VK::Noname),
            0xFD => Some(VK::PA1),
            0xFE => Some(VK::OEMClear),
            _ => None,
        };
        proof {
            match r {
                Some(k) => {
                    assert(k.code() == code);
                    let c = choose|c: VK| c.code() == code;
                    lemma_code_injective(k, c);
                },
                None => {
                    assert forall|k: VK| k.code() != code by {
                        lemma_code_range(k);
                    }
                },
            }
        }
        r
    }
}

impl PartialOrd for VK {
    /// Keys are ordered by their codes.
    fn partial_cmp(&self, other: &Self) -> (order: Option<Ordering>) {
        self.as_u32().partial_cmp(&other.as_u32())
    }
}

impl PartialOrdSpecImpl for VK {
    open spec fn obeys_partial_cmp_spec() -> bool {
        true
    }

    open spec fn partial_cmp_spec(&self, other: &Self) -> Option<Ordering> {
        if self.code() < other.code() {
            Some(Ordering::Less)
        } else if self.code() == other.code() {
            Some(Ordering::Equal)
        } else {
            Some(Ordering::Greater)
        }
    }
}

impl VK {
    /// Whether this key comes before the other in the order of the codes.
    pub fn precedes(&self, other: &VK) -> (before: bool)
        ensures
            before == (self.code() < other.code()),
    {
        *self < *other
    }
}

/// Every code lies between `0x01` and `0xFE`.
pub proof fn lemma_code_range(k: VK)
    ensures
        0x01 <= k.code() <= 0xFE,
{
}

/// No two keys share a code.
pub proof fn lemma_code_injective(a: VK, b: VK)
    requires
        a.code() == b.code(),
    ensures
        a == b,
{
}

/// Looking up the code of a key gives that key back.
pub proof fn lemma_from_code_of_key(k: VK)
    ensures
        VK::spec_from_u32(k.code()) == Some(k),
        VK::is_recognized(k.code()),
{
    let c = choose|c: VK| c.code() == k.code();
    lemma_code_injective(k, c);
}

} // verus!
