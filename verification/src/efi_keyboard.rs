//! Translating the key strokes that UEFI's simple text input reports into
//! key events.
use vstd::prelude::*;
use crate::keyboard::{KeyCode, KeyDirection, KeyEvent, KeyModifiers};

verus! {

/// The scan codes of UEFI's simple text input.
#[derive(Copy, Clone, Debug, PartialEq, Eq, Structural)]
pub enum EFIScanCode {
    Null,
    CursorUp,
    CursorDown,
    CursorRight,
    CursorLeft,
    Home,
    End,
    Insert,
    Delete,
    PageUp,
    PageDown,
    F1,
    F2,
    F3,
    F4,
    F5,
    F6,
    F7,
    F8,
    F9,
    F10,
    Escape,
    F11,
    F12,
    F13,
    F14,
    F15,
    F16,
    F17,
    F18,
    F19,
    F20,
    F21,
    F22,
    F23,
    F24,
    Mute,
    VolumeUp,
    VolumeDown,
    BrightnessUp,
    BrightnessDown,
    Suspend,
    Hibernate,
    ToggleDisplay,
    Recovery,
    Eject,
}

/// The number of a scan code.
pub open spec fn scan_code_number(c: EFIScanCode) -> u16 {
    match c {
        EFIScanCode::Null => 0x0,
        EFIScanCode::CursorUp => 0x1,
        EFIScanCode::CursorDown => 0x2,
        EFIScanCode::CursorRight => 0x3,
        EFIScanCode::CursorLeft => 0x4,
        EFIScanCode::Home => 0x5,
        EFIScanCode::End => 0x6,
        EFIScanCode::Insert => 0x7,
        EFIScanCode::Delete => 0x8,
        EFIScanCode::PageUp => 0x9,
        EFIScanCode::PageDown => 0xa,
        EFIScanCode::F1 => 0xb,
        EFIScanCode::F2 => 0xc,
        EFIScanCode::F3 => 0xd,
        EFIScanCode::F4 => 0xe,
        EFIScanCode::F5 => 0xf,
        EFIScanCode::F6 => 0x10,
        EFIScanCode::F7 => 0x11,
        EFIScanCode::F8 => 0x12,
        EFIScanCode::F9 => 0x13,
        EFIScanCode::F10 => 0x14,
        EFIScanCode::Escape => 0x17,
        EFIScanCode::F11 => 0x15,
        EFIScanCode::F12 => 0x16,
        EFIScanCode::F13 => 0x68,
        EFIScanCode::F14 => 0x69,
        EFIScanCode::F15 => 0x6a,
        EFIScanCode::F16 => 0x6b,
        EFIScanCode::F17 => 0x6c,
        EFIScanCode::F18 => 0x6d,
        EFIScanCode::F19 => 0x6e,
        EFIScanCode::F20 => 0x6f,
        EFIScanCode::F21 => 0x70,
        EFIScanCode::F22 => 0x71,
        EFIScanCode::F23 => 0x72,
        EFIScanCode::F24 => 0x73,
        EFIScanCode::Mute => 0x7f,
        EFIScanCode::VolumeUp => 0x80,
        EFIScanCode::VolumeDown => 0x81,
        EFIScanCode::BrightnessUp => 0x100,
        EFIScanCode::BrightnessDown => 0x101,
        EFIScanCode::Suspend => 0x102,
        EFIScanCode::Hibernate => 0x103,
        EFIScanCode::ToggleDisplay => 0x104,
        EFIScanCode::Recovery => 0x105,
        EFIScanCode::Eject => 0x106,
    }
}

impl EFIScanCode {
    /// The number of the scan code.
    pub fn as_u16(&self) -> (r: u16)
        ensures
            r == scan_code_number(*self),
    {
        match *self {
            EFIScanCode::Null => 0x0,
            EFIScanCode::CursorUp => 0x1,
            EFIScanCode::CursorDown => 0x2,
            EFIScanCode::CursorRight => 0x3,
            EFIScanCode::CursorLeft => 0x4,
            EFIScanCode::Home => 0x5,
            EFIScanCode::End => 0x6,
            EFIScanCode::Insert => 0x7,
            EFIScanCode::Delete => 0x8,
            EFIScanCode::PageUp => 0x9,
            EFIScanCode::PageDown => 0xa,
            EFIScanCode::F1 => 0xb,
            EFIScanCode::F2 => 0xc,
            EFIScanCode::F3 => 0xd,
            EFIScanCode::F4 => 0xe,
            EFIScanCode::F5 => 0xf,
            EFIScanCode::F6 => 0x10,
            EFIScanCode::F7 => 0x11,
            EFIScanCode::F8 => 0x12,
            EFIScanCode::F9 => 0x13,
            EFIScanCode::F10 => 0x14,
            EFIScanCode::Escape => 0x17,
            EFIScanCode::F11 => 0x15,
            EFIScanCode::F12 => 0x16,
            EFIScanCode::F13 => 0x68,
            EFIScanCode::F14 => 0x69,
            EFIScanCode::F15 => 0x6a,
            EFIScanCode::F16 => 0x6b,
            EFIScanCode::F17 => 0x6c,
            EFIScanCode::F18 => 0x6d,
            EFIScanCode::F19 => 0x6e,
            EFIScanCode::F20 => 0x6f,
            EFIScanCode::F21 => 0x70,
            EFIScanCode::F22 => 0x71,
            EFIScanCode::F23 => 0x72,
            EFIScanCode::F24 => 0x73,
            EFIScanCode::Mute => 0x7f,
            EFIScanCode::VolumeUp => 0x80,
            EFIScanCode::VolumeDown => 0x81,
            EFIScanCode::BrightnessUp => 0x100,
            EFIScanCode::BrightnessDown => 0x101,
            EFIScanCode::Suspend => 0x102,
            EFIScanCode::Hibernate => 0x103,
            EFIScanCode::ToggleDisplay => 0x104,
            EFIScanCode::Recovery => 0x105,
            EFIScanCode::Eject => 0x106,
        }
    }
}

/// The toggle state flags of UEFI's extended text input.
#[derive(Copy, Clone, Debug, PartialEq, Eq, Structural)]
pub enum EFIKeyToggle {
    NoToggle,
    ToggleStateValid,
    KeyStateExposed,
    ScrollLockActive,
    NumLockActive,
    CapsLockActive,
}

/// A key stroke as UEFI's simple text input reports it: a scan code, and the
/// character for a printable key (0 for another).
#[derive(Copy, Clone, Debug, PartialEq, Eq, Structural)]
pub struct EFIInputKey {
    pub scancode: EFIScanCode,
    pub unicode_char: u16,
}

/// A key stroke and the state of the modifiers and toggles, as UEFI's
/// extended text input reports them.
#[derive(Copy, Clone, Debug, PartialEq, Eq, Structural)]
pub struct EFIKeyData {
    pub key: EFIInputKey,
    pub key_modifiers: u32,
    pub key_toggle_state: EFIKeyToggle,
}

/// Whether the modifier state of extended input is valid: its high bit is set.
pub fn modifier_state_is_valid(state: u32) -> (r: bool)
    ensures
        r == (state >= 0x8000_0000),
{
    assert((state & 0x8000_0000u32 == 0x8000_0000u32) == (state >= 0x8000_0000u32)) by (bit_vector);
    state & 0x8000_0000 == 0x8000_0000
}

/// The key of an ASCII punctuation from 32 to 47, and whether it takes shift.
pub open spec fn spec_map_ascii_punctuation_1(code: u16) -> (bool, KeyCode) {
    let k = if code == 32 { KeyCode::Space }
    else if code == 33 { KeyCode::One }
    else if code == 34 { KeyCode::SingleQuote }
    else if code == 35 { KeyCode::Three }
    else if code == 36 { KeyCode::Four }
    else if code == 37 { KeyCode::Five }
    else if code == 38 { KeyCode::Seven }
    else if code == 39 { KeyCode::SingleQuote }
    else if code == 40 { KeyCode::Nine }
    else if code == 41 { KeyCode::Zero }
    else if code == 42 { KeyCode::Eight }
    else if code == 43 { KeyCode::Equals }
    else if code == 44 { KeyCode::Comma }
    else if code == 45 { KeyCode::Dash }
    else if code == 46 { KeyCode::Dot }
    else { KeyCode::ForwardSlash };
    (((33 <= code && code <= 38) || (40 <= code && code <= 43)), k)
}

/// The key of an ASCII punctuation from 32 to 47, and whether it takes shift.
pub fn map_ascii_punctuation_1(code: u16) -> (r: (bool, KeyCode))
    requires
        32 <= code <= 47,
    ensures
        r == spec_map_ascii_punctuation_1(code),
{
    let shift_is_down = ((33 <= code && code <= 38) || (40 <= code && code <= 43));
    let keycode = match code {
        32 => KeyCode::Space,
        33 => KeyCode::One,
        34 => KeyCode::SingleQuote,
        35 => KeyCode::Three,
        36 => KeyCode::Four,
        37 => KeyCode::Five,
        38 => KeyCode::Seven,
        39 => KeyCode::SingleQuote,
        40 => KeyCode::Nine,
        41 => KeyCode::Zero,
        42 => KeyCode::Eight,
        43 => KeyCode::Equals,
        44 => KeyCode::Comma,
        45 => KeyCode::Dash,
        46 => KeyCode::Dot,
        _ => KeyCode::ForwardSlash,
    };
    (shift_is_down, keycode)
}

/// The key of an ASCII digit.
pub open spec fn spec_map_ascii_number(code: u16) -> KeyCode {
    let k = if code == 48 { KeyCode::Zero }
    else if code == 49 { KeyCode::One }
    else if code == 50 { KeyCode::Two }
    else if code == 51 { KeyCode::Three }
    else if code == 52 { KeyCode::Four }
    else if code == 53 { KeyCode::Five }
    else if code == 54 { KeyCode::Six }
    else if code == 55 { KeyCode::Seven }
    else if code == 56 { KeyCode::Eight }
    else { KeyCode::Nine };
    k
}

/// The key of an ASCII digit.
pub fn map_ascii_number(code: u16) -> (r: KeyCode)
    requires
        48 <= code <= 57,
    ensures
        r == spec_map_ascii_number(code),
{
    let keycode = match code {
        48 => KeyCode::Zero,
        49 => KeyCode::One,
        50 => KeyCode::Two,
        51 => KeyCode::Three,
        52 => KeyCode::Four,
        53 => KeyCode::Five,
        54 => KeyCode::Six,
        55 => KeyCode::Seven,
        56 => KeyCode::Eight,
        _ => KeyCode::Nine,
    };
    keycode
}

/// The key of an ASCII punctuation from 58 to 64, and whether it takes shift.
pub open spec fn spec_map_ascii_punctuation_2(code: u16) -> (bool, KeyCode) {
    let k = if code == 58 { KeyCode::SemiColon }
    else if code == 59 { KeyCode::SemiColon }
    else if code == 60 { KeyCode::Comma }
    else if code == 61 { KeyCode::Equals }
    else if code == 62 { KeyCode::Dot }
    else if code == 63 { KeyCode::ForwardSlash }
    else { KeyCode::Two };
    ((code == 58 || code == 60 || (62 <= code && code <= 64)), k)
}

/// The key of an ASCII punctuation from 58 to 64, and whether it takes shift.
pub fn map_ascii_punctuation_2(code: u16) -> (r: (bool, KeyCode))
    requires
        58 <= code <= 64,
    ensures
        r == spec_map_ascii_punctuation_2(code),
{
    let shift_is_down = (code == 58 || code == 60 || (62 <= code && code <= 64));
    let keycode = match code {
        58 => KeyCode::SemiColon,
        59 => KeyCode::SemiColon,
        60 => KeyCode::Comma,
        61 => KeyCode::Equals,
        62 => KeyCode::Dot,
        63 => KeyCode::ForwardSlash,
        _ => KeyCode::Two,
    };
    (shift_is_down, keycode)
}

/// The key of an uppercase Latin letter.
pub open spec fn spec_map_latin_uppercase_alphabet(code: u16) -> KeyCode {
    let k = if code == 65 { KeyCode::A }
    else if code == 66 { KeyCode::B }
    else if code == 67 { KeyCode::C }
    else if code == 68 { KeyCode::D }
    else if code == 69 { KeyCode::E }
    else if code == 70 { KeyCode::F }
    else if code == 71 { KeyCode::G }
    else if code == 72 { KeyCode::H }
    else if code == 73 { KeyCode::I }
    else if code == 74 { KeyCode::J }
    else if code == 75 { KeyCode::K }
    else if code == 76 { KeyCode::L }
    else if code == 77 { KeyCode::M }
    else if code == 78 { KeyCode::N }
    else if code == 79 { KeyCode::O }
    else if code == 80 { KeyCode::P }
    else if code == 81 { KeyCode::Q }
    else if code == 82 { KeyCode::R }
    else if code == 83 { KeyCode::S }
    else if code == 84 { KeyCode::T }
    else if code == 85 { KeyCode::U }
    else if code == 86 { KeyCode::V }
    else if code == 87 { KeyCode::W }
    else if code == 88 { KeyCode::X }
    else if code == 89 { KeyCode::Y }
    else { KeyCode::Z };
    k
}

/// The key of an uppercase Latin letter.
pub fn map_latin_uppercase_alphabet(code: u16) -> (r: KeyCode)
    requires
        65 <= code <= 90,
    ensures
        r == spec_map_latin_uppercase_alphabet(code),
{
    let keycode = match code {
        65 => KeyCode::A,
        66 => KeyCode::B,
        67 => KeyCode::C,
        68 => KeyCode::D,
        69 => KeyCode::E,
        70 => KeyCode::F,
        71 => KeyCode::G,
        72 => KeyCode::H,
        73 => KeyCode::I,
        74 => KeyCode::J,
        75 => KeyCode::K,
        76 => KeyCode::L,
        77 => KeyCode::M,
        78 => KeyCode::N,
        79 => KeyCode::O,
        80 => KeyCode::P,
        81 => KeyCode::Q,
        82 => KeyCode::R,
        83 => KeyCode::S,
        84 => KeyCode::T,
        85 => KeyCode::U,
        86 => KeyCode::V,
        87 => KeyCode::W,
        88 => KeyCode::X,
        89 => KeyCode::Y,
        _ => KeyCode::Z,
    };
    keycode
}

/// The key of an ASCII punctuation from 91 to 96, and whether it takes shift.
pub open spec fn spec_map_ascii_punctuation_3(code: u16) -> (bool, KeyCode) {
    let k = if code == 91 { KeyCode::OpenBracket }
    else if code == 92 { KeyCode::BackSlash }
    else if code == 93 { KeyCode::CloseBracket }
    else if code == 94 { KeyCode::Six }
    else if code == 95 { KeyCode::Dash }
    else { KeyCode::Backtick };
    ((code == 94 || code == 95), k)
}

/// The key of an ASCII punctuation from 91 to 96, and whether it takes shift.
pub fn map_ascii_punctuation_3(code: u16) -> (r: (bool, KeyCode))
    requires
        91 <= code <= 96,
    ensures
        r == spec_map_ascii_punctuation_3(code),
{
    let shift_is_down = (code == 94 || code == 95);
    let keycode = match code {
        91 => KeyCode::OpenBracket,
        92 => KeyCode::BackSlash,
        93 => KeyCode::CloseBracket,
        94 => KeyCode::Six,
        95 => KeyCode::Dash,
        _ => KeyCode::Backtick,
    };
    (shift_is_down, keycode)
}

/// The key of a lowercase Latin letter.
pub fn map_latin_lowercase_alphabet(code: u16) -> (r: KeyCode)
    requires
        97 <= code <= 122,
    ensures
        r == spec_map_latin_uppercase_alphabet((code - 32) as u16),
{
    map_latin_uppercase_alphabet(code - (97 - 65))
}

/// The key of a scan code that names one.
pub open spec fn spec_map_efi_scancode(code: EFIScanCode) -> Result<KeyCode, ()> {
    match code {
        EFIScanCode::CursorUp => Ok(KeyCode::ArrowUp),
        EFIScanCode::CursorDown => Ok(KeyCode::ArrowDown),
        EFIScanCode::CursorLeft => Ok(KeyCode::ArrowLeft),
        EFIScanCode::CursorRight => Ok(KeyCode::ArrowRight),
        EFIScanCode::Home => Ok(KeyCode::Home),
        EFIScanCode::End => Ok(KeyCode::End),
        EFIScanCode::Insert => Ok(KeyCode::Insert),
        EFIScanCode::Delete => Ok(KeyCode::Delete),
        EFIScanCode::PageUp => Ok(KeyCode::PageUp),
        EFIScanCode::PageDown => Ok(KeyCode::PageDown),
        EFIScanCode::Escape => Ok(KeyCode::Escape),
        _ => Err(()),
    }
}

/// The key of a scan code that names one.
pub fn map_efi_scancode(code: EFIScanCode) -> (r: Result<KeyCode, ()>)
    ensures
        r == spec_map_efi_scancode(code),
{
    match code {
        EFIScanCode::CursorUp => Ok(KeyCode::ArrowUp),
        EFIScanCode::CursorDown => Ok(KeyCode::ArrowDown),
        EFIScanCode::CursorLeft => Ok(KeyCode::ArrowLeft),
        EFIScanCode::CursorRight => Ok(KeyCode::ArrowRight),
        EFIScanCode::Home => Ok(KeyCode::Home),
        EFIScanCode::End => Ok(KeyCode::End),
        EFIScanCode::Insert => Ok(KeyCode::Insert),
        EFIScanCode::Delete => Ok(KeyCode::Delete),
        EFIScanCode::PageUp => Ok(KeyCode::PageUp),
        EFIScanCode::PageDown => Ok(KeyCode::PageDown),
        EFIScanCode::Escape => Ok(KeyCode::Escape),
        _ => Err(()),
    }
}

/// The key of a control character that names one.
pub open spec fn spec_map_control_char(code: u16) -> Result<KeyCode, ()> {
    if code == 8 {
        Ok(KeyCode::Backspace)
    } else if code == 9 {
        Ok(KeyCode::Tab)
    } else if code == 10 || code == 13 {
        Ok(KeyCode::Enter)
    } else {
        Err(())
    }
}

/// The key of a control character that names one.
pub fn map_control_char(code: u16) -> (r: Result<KeyCode, ()>)
    ensures
        r == spec_map_control_char(code),
{
    match code {
        8 => Ok(KeyCode::Backspace),
        9 => Ok(KeyCode::Tab),
        10 => Ok(KeyCode::Enter),
        13 => Ok(KeyCode::Enter),
        _ => Err(()),
    }
}

/// No modifier down.
pub open spec fn no_modifiers() -> KeyModifiers {
    KeyModifiers {
        lctrl: false,
        rctrl: false,
        alt: false,
        alt_gr: false,
        lshift: false,
        rshift: false,
        caps_lock: false,
    }
}

/// The key press that a UEFI key stroke stands for. The report gives no
/// modifiers and no releases: the key goes down; shift counts as down for a
/// character that takes shift, and caps lock for an uppercase letter.
pub open spec fn efi_key_event(key: EFIInputKey) -> Result<KeyEvent, ()> {
    let c = key.unicode_char;
    let m = no_modifiers();
    let made = |shift: bool, caps: bool, keycode: KeyCode|
        KeyEvent {
            keycode,
            direction: KeyDirection::Down,
            key_modifiers: KeyModifiers { lshift: shift, caps_lock: caps, ..m },
        };
    if key.scancode == EFIScanCode::Null {
        if 32 <= c <= 47 {
            let (s, k) = spec_map_ascii_punctuation_1(c);
            Ok(made(s, false, k))
        } else if 48 <= c <= 57 {
            Ok(made(false, false, spec_map_ascii_number(c)))
        } else if 58 <= c <= 64 {
            let (s, k) = spec_map_ascii_punctuation_2(c);
            Ok(made(s, false, k))
        } else if 65 <= c <= 90 {
            Ok(made(false, true, spec_map_latin_uppercase_alphabet(c)))
        } else if 91 <= c <= 96 {
            let (s, k) = spec_map_ascii_punctuation_3(c);
            Ok(made(s, false, k))
        } else if 97 <= c <= 122 {
            Ok(made(false, false, spec_map_latin_uppercase_alphabet((c - 32) as u16)))
        } else if c <= 31 {
            match spec_map_control_char(c) {
                Ok(k) => Ok(made(false, false, k)),
                Err(()) => Err(()),
            }
        } else {
            Err(())
        }
    } else {
        match spec_map_efi_scancode(key.scancode) {
            Ok(k) => Ok(made(false, false, k)),
            Err(()) => Err(()),
        }
    }
}

/// The key press that a UEFI key stroke stands for.
pub fn key_event_from_efi(key: EFIInputKey) -> (r: Result<KeyEvent, ()>)
    ensures
        r == efi_key_event(key),
{
    let mut modifiers = KeyModifiers {
        lctrl: false,
        rctrl: false,
        alt: false,
        alt_gr: false,
        lshift: false,
        rshift: false,
        caps_lock: false,
    };
    let direction = KeyDirection::Down;
    let keycode: KeyCode;
    let mut shift_down = false;
    let c = key.unicode_char;
    if key.scancode == EFIScanCode::Null {
        if c >= 32 && c <= 47 {
            let (s, k) = map_ascii_punctuation_1(c);
            shift_down = s;
            keycode = k;
        } else if c >= 48 && c <= 57 {
            keycode = map_ascii_number(c);
        } else if c >= 58 && c <= 64 {
            let (s, k) = map_ascii_punctuation_2(c);
            shift_down = s;
            keycode = k;
        } else if c >= 65 && c <= 90 {
            modifiers.caps_lock = true;
            keycode = map_latin_uppercase_alphabet(c);
        } else if c >= 91 && c <= 96 {
            let (s, k) = map_ascii_punctuation_3(c);
            shift_down = s;
            keycode = k;
        } else if c >= 97 && c <= 122 {
            keycode = map_latin_lowercase_alphabet(c);
        } else if c <= 31 {
            keycode = match map_control_char(c) {
                Ok(k) => k,
                Err(()) => {
                    return Err(());
                },
            };
        } else {
            return Err(());
        }
    } else {
        keycode = match map_efi_scancode(key.scancode) {
            Ok(k) => k,
            Err(()) => {
                return Err(());
            },
        };
    }
    modifiers.lshift = shift_down;
    Ok(KeyEvent { keycode, direction, key_modifiers: modifiers })
}

impl TryFrom<EFIInputKey> for KeyEvent {
    type Error = ();

    fn try_from(key: EFIInputKey) -> (r: Result<KeyEvent, ()>) {
        key_event_from_efi(key)
    }
}

impl vstd::std_specs::convert::TryFromSpecImpl<EFIInputKey> for KeyEvent {
    open spec fn obeys_try_from_spec() -> bool {
        true
    }

    open spec fn try_from_spec(key: EFIInputKey) -> Result<KeyEvent, ()> {
        efi_key_event(key)
    }
}

} // verus!
