//! PS/2 keyboard driver for the US 104-key layout, scancode set 1.
use vstd::prelude::*;

verus! {

/// The first byte of an extended (two byte) scancode.
pub const EXTENDED_KEY_CODE: u8 = 0xe0;

/// The state of the keyboard between bytes.
pub struct Keyboard {
    /// Whether the last byte began an extended scancode.
    pub state: KeyboardState,
    /// Which modifier keys are down.
    pub modifiers: KeyModifiers,
}

/// Whether the keyboard is in the middle of an extended scancode.
#[derive(Debug, Clone, Copy, PartialEq, Eq, Structural)]
pub enum KeyboardState {
    /// Not in the middle of an extended scancode.
    Start,
    /// An extended scancode has begun; its second byte is awaited.
    Extended,
}

/// The state of the modifier keys.
#[derive(Debug, Clone, Copy, PartialEq, Eq, Structural)]
pub struct KeyModifiers {
    pub lctrl: bool,
    pub rctrl: bool,
    pub alt: bool,
    pub alt_gr: bool,
    pub lshift: bool,
    pub rshift: bool,
    pub caps_lock: bool,
}

/// A key press or release together with the modifiers at that moment.
#[derive(Debug, Clone, Copy, PartialEq, Eq, Structural)]
pub struct KeyEvent {
    pub keycode: KeyCode,
    pub key_modifiers: KeyModifiers,
    pub direction: KeyDirection,
}

/// Whether a key went down or up.
#[derive(Debug, Clone, Copy, PartialEq, Eq, Structural)]
pub enum KeyDirection {
    /// The key is being pressed.
    Down,
    /// The key is being released.
    Up,
}

/// The keys of the keyboard.
#[derive(Debug, Clone, Copy, PartialEq, Eq, Structural)]
pub enum KeyCode {
    Escape,
    One,
    Two,
    Three,
    Four,
    Five,
    Six,
    Seven,
    Eight,
    Nine,
    Zero,
    Dash,
    Equals,
    Backspace,
    Tab,
    Q,
    W,
    E,
    R,
    T,
    Y,
    U,
    I,
    O,
    P,
    OpenBracket,
    CloseBracket,
    Enter,
    LeftCtrl,
    A,
    S,
    D,
    F,
    G,
    H,
    J,
    K,
    L,
    SemiColon,
    SingleQuote,
    Backtick,
    LeftShift,
    BackSlash,
    Z,
    X,
    C,
    V,
    B,
    N,
    M,
    Comma,
    Dot,
    ForwardSlash,
    RightShift,
    KeypadStar,
    LeftAlt,
    Space,
    CapsLock,
    F1,
    F2,
    F3,
    F4,
    F5,
    F6,
    F7,
    F8,
    F9,
    F10,
    F11,
    F12,
    NumLock,
    ScrollLock,
    KeypadSeven,
    KeypadEight,
    KeypadNine,
    KeypadDash,
    KeypadFour,
    KeypadFive,
    KeypadSix,
    KeypadOne,
    KeypadTwo,
    KeypadThree,
    KeypadPlus,
    KeypadZero,
    KeypadDot,
    PrevTrack,
    NextTrack,
    KeypadEnter,
    RightCtrl,
    Mute,
    Calculator,
    Play,
    Stop,
    VolumeDown,
    VolumeUp,
    WWWHome,
    KeypadForwardSlash,
    AltGr,
    Home,
    ArrowUp,
    ArrowDown,
    ArrowLeft,
    ArrowRight,
    PageUp,
    End,
    PageDown,
    Insert,
    Delete,
    LeftGUI,
    RightGUI,
    Apps,
    AcpiPower,
    AcpiSleep,
    AcpiWake,
    WWWSearch,
    WWWFavorites,
    WWWRefresh,
    WWWStop,
    WWWForward,
    WWWBack,
    MyComputer,
    Email,
    MediaSelect,
}

/// The errors that the driver reports.
#[derive(Debug, Clone, Copy, PartialEq, Eq, Structural)]
pub enum KeyError {
    UnknownScancode,
}

/// The key that a regular scancode (press code) denotes.
pub open spec fn scancode_key(byte: u8) -> Option<KeyCode> {
    match byte {
        0x01u8 => Some(KeyCode::Escape),
        0x02u8 => Some(KeyCode::One),
        0x03u8 => Some(KeyCode::Two),
        0x04u8 => Some(KeyCode::Three),
        0x05u8 => Some(KeyCode::Four),
        0x06u8 => Some(KeyCode::Five),
        0x07u8 => Some(KeyCode::Six),
        0x08u8 => Some(KeyCode::Seven),
        0x09u8 => Some(KeyCode::Eight),
        0x0au8 => Some(KeyCode::Nine),
        0x0bu8 => Some(KeyCode::Zero),
        0x0cu8 => Some(KeyCode::Dash),
        0x0du8 => Some(KeyCode::Equals),
        0x0eu8 => Some(KeyCode::Backspace),
        0x0fu8 => Some(KeyCode::Tab),
        0x10u8 => Some(KeyCode::Q),
        0x11u8 => Some(KeyCode::W),
        0x12u8 => Some(KeyCode::E),
        0x13u8 => Some(KeyCode::R),
        0x14u8 => Some(KeyCode::T),
        0x15u8 => Some(KeyCode::Y),
        0x16u8 => Some(KeyCode::U),
        0x17u8 => Some(KeyCode::I),
        0x18u8 => Some(KeyCode::O),
        0x19u8 => Some(KeyCode::P),
        0x1au8 => Some(KeyCode::OpenBracket),
        0x1bu8 => Some(KeyCode::CloseBracket),
        0x1cu8 => Some(KeyCode::Enter),
        0x1du8 => Some(KeyCode::LeftCtrl),
        0x1eu8 => Some(KeyCode::A),
        0x1fu8 => Some(KeyCode::S),
        0x20u8 => Some(KeyCode::D),
        0x21u8 => Some(KeyCode::F),
        0x22u8 => Some(KeyCode::G),
        0x23u8 => Some(KeyCode::H),
        0x24u8 => Some(KeyCode::J),
        0x25u8 => Some(KeyCode::K),
        0x26u8 => Some(KeyCode::L),
        0x27u8 => Some(KeyCode::SemiColon),
        0x28u8 => Some(KeyCode::SingleQuote),
        0x29u8 => Some(KeyCode::Backtick),
        0x2au8 => Some(KeyCode::LeftShift),
        0x2bu8 => Some(KeyCode::BackSlash),
        0x2cu8 => Some(KeyCode::Z),
        0x2du8 => Some(KeyCode::X),
        0x2eu8 => Some(KeyCode::C),
        0x2fu8 => Some(KeyCode::V),
        0x30u8 => Some(KeyCode::B),
        0x31u8 => Some(KeyCode::N),
        0x32u8 => Some(KeyCode::M),
        0x33u8 => Some(KeyCode::Comma),
        0x34u8 => Some(KeyCode::Dot),
        0x35u8 => Some(KeyCode::ForwardSlash),
        0x36u8 => Some(KeyCode::RightShift),
        0x37u8 => Some(KeyCode::KeypadStar),
        0x38u8 => Some(KeyCode::LeftAlt),
        0x39u8 => Some(KeyCode::Space),
        0x3au8 => Some(KeyCode::CapsLock),
        0x3bu8 => Some(KeyCode::F1),
        0x3cu8 => Some(KeyCode::F2),
        0x3du8 => Some(KeyCode::F3),
        0x3eu8 => Some(KeyCode::F4),
        0x3fu8 => Some(KeyCode::F5),
        0x40u8 => Some(KeyCode::F6),
        0x41u8 => Some(KeyCode::F7),
        0x42u8 => Some(KeyCode::F8),
        0x43u8 => Some(KeyCode::F9),
        0x44u8 => Some(KeyCode::F10),
        0x57u8 => Some(KeyCode::F11),
        0x58u8 => Some(KeyCode::F12),
        0x45u8 => Some(KeyCode::NumLock),
        0x46u8 => Some(KeyCode::ScrollLock),
        0x47u8 => Some(KeyCode::KeypadSeven),
        0x48u8 => Some(KeyCode::KeypadEight),
        0x49u8 => Some(KeyCode::KeypadNine),
        0x4au8 => Some(KeyCode::KeypadDash),
        0x4bu8 => Some(KeyCode::KeypadFour),
        0x4cu8 => Some(KeyCode::KeypadFive),
        0x4du8 => Some(KeyCode::KeypadSix),
        0x4eu8 => Some(KeyCode::KeypadPlus),
        0x4fu8 => Some(KeyCode::KeypadOne),
        0x50u8 => Some(KeyCode::KeypadTwo),
        0x51u8 => Some(KeyCode::KeypadThree),
        0x52u8 => Some(KeyCode::KeypadZero),
        0x53u8 => Some(KeyCode::KeypadDot),
        _ => None,
    }
}

/// The key that the second byte of an extended scancode (press code) denotes.
pub open spec fn extended_scancode_key(byte: u8) -> Option<KeyCode> {
    match byte {
        0x10u8 => Some(KeyCode::PrevTrack),
        0x19u8 => Some(KeyCode::NextTrack),
        0x1cu8 => Some(KeyCode::KeypadEnter),
        0x1du8 => Some(KeyCode::RightCtrl),
        0x20u8 => Some(KeyCode::Mute),
        0x21u8 => Some(KeyCode::Calculator),
        0x22u8 => Some(KeyCode::Play),
        0x24u8 => Some(KeyCode::Stop),
        0x2eu8 => Some(KeyCode::VolumeDown),
        0x30u8 => Some(KeyCode::VolumeUp),
        0x32u8 => Some(KeyCode::WWWHome),
        0x35u8 => Some(KeyCode::KeypadForwardSlash),
        0x38u8 => Some(KeyCode::AltGr),
        0x47u8 => Some(KeyCode::Home),
        0x48u8 => Some(KeyCode::ArrowUp),
        0x49u8 => Some(KeyCode::PageUp),
        0x4bu8 => Some(KeyCode::ArrowLeft),
        0x4du8 => Some(KeyCode::ArrowRight),
        0x4fu8 => Some(KeyCode::End),
        0x50u8 => Some(KeyCode::ArrowDown),
        0x51u8 => Some(KeyCode::PageDown),
        0x52u8 => Some(KeyCode::Insert),
        0x53u8 => Some(KeyCode::Delete),
        0x5bu8 => Some(KeyCode::LeftGUI),
        0x5cu8 => Some(KeyCode::RightGUI),
        0x5du8 => Some(KeyCode::Apps),
        0x5eu8 => Some(KeyCode::AcpiPower),
        0x5fu8 => Some(KeyCode::AcpiSleep),
        0x63u8 => Some(KeyCode::AcpiWake),
        0x65u8 => Some(KeyCode::WWWSearch),
        0x66u8 => Some(KeyCode::WWWFavorites),
        0x67u8 => Some(KeyCode::WWWRefresh),
        0x68u8 => Some(KeyCode::WWWStop),
        0x69u8 => Some(KeyCode::WWWForward),
        0x6au8 => Some(KeyCode::WWWBack),
        0x6bu8 => Some(KeyCode::MyComputer),
        0x6cu8 => Some(KeyCode::Email),
        0x6du8 => Some(KeyCode::MediaSelect),
        _ => None,
    }
}

/// A lookup result as the driver reports it.
pub open spec fn key_lookup(k: Option<KeyCode>) -> Result<KeyCode, KeyError> {
    match k {
        Some(code) => Ok(code),
        None => Err(KeyError::UnknownScancode),
    }
}

/// Whether a key is one of the modifiers that the driver tracks.
pub open spec fn is_modifier_key(k: KeyCode) -> bool {
    ||| k == KeyCode::LeftCtrl
    ||| k == KeyCode::RightCtrl
    ||| k == KeyCode::LeftShift
    ||| k == KeyCode::RightShift
    ||| k == KeyCode::LeftAlt
    ||| k == KeyCode::AltGr
    ||| k == KeyCode::CapsLock
}

/// The modifiers after modifier key `k` moves in `direction`.
pub open spec fn modifiers_after(m: KeyModifiers, k: KeyCode, direction: KeyDirection) -> KeyModifiers {
    let down = direction == KeyDirection::Down;
    if k == KeyCode::LeftCtrl {
        KeyModifiers { lctrl: down, ..m }
    } else if k == KeyCode::RightCtrl {
        KeyModifiers { rctrl: down, ..m }
    } else if k == KeyCode::LeftShift {
        KeyModifiers { lshift: down, ..m }
    } else if k == KeyCode::RightShift {
        KeyModifiers { rshift: down, ..m }
    } else if k == KeyCode::LeftAlt {
        KeyModifiers { alt: down, ..m }
    } else if k == KeyCode::AltGr {
        KeyModifiers { alt_gr: down, ..m }
    } else {
        KeyModifiers { caps_lock: down, ..m }
    }
}

/// The outcome of a key whose scancode was looked up: modifiers change and
/// report nothing, other keys report an event with the current modifiers.
pub open spec fn key_outcome(
    m: KeyModifiers,
    lookup: Option<KeyCode>,
    direction: KeyDirection,
) -> (KeyModifiers, Result<Option<KeyEvent>, KeyError>) {
    match lookup {
        None => (m, Err(KeyError::UnknownScancode)),
        Some(k) => if is_modifier_key(k) {
            (modifiers_after(m, k, direction), Ok(None))
        } else {
            (m, Ok(Some(KeyEvent { keycode: k, key_modifiers: m, direction })))
        },
    }
}

/// The keyboard's response to one byte: the next state, the next modifiers,
/// and what is reported.
pub open spec fn keyboard_step(
    state: KeyboardState,
    m: KeyModifiers,
    byte: u8,
) -> (KeyboardState, KeyModifiers, Result<Option<KeyEvent>, KeyError>) {
    match state {
        KeyboardState::Start => {
            if byte == EXTENDED_KEY_CODE {
                (KeyboardState::Extended, m, Ok(None))
            } else if 0x01 <= byte <= 0x58 {
                let o = key_outcome(m, scancode_key(byte), KeyDirection::Down);
                (KeyboardState::Start, o.0, o.1)
            } else if 0x81 <= byte <= 0xd8 {
                let o = key_outcome(m, scancode_key((byte - 0x80) as u8), KeyDirection::Up);
                (KeyboardState::Start, o.0, o.1)
            } else {
                (KeyboardState::Start, m, Err(KeyError::UnknownScancode))
            }
        },
        KeyboardState::Extended => {
            if 0x10 <= byte <= 0x90 {
                let o = key_outcome(m, extended_scancode_key(byte), KeyDirection::Down);
                (KeyboardState::Start, o.0, o.1)
            } else if 0x99 <= byte <= 0xed {
                let o = key_outcome(m, extended_scancode_key((byte - 0x80) as u8), KeyDirection::Up);
                (KeyboardState::Start, o.0, o.1)
            } else {
                (KeyboardState::Start, m, Err(KeyError::UnknownScancode))
            }
        },
    }
}

/// Every key has one scancode: two press codes that denote a key denote
/// different keys, in the regular table and in the extended one, and no key
/// has both a regular and an extended press code.
pub proof fn law_scancodes_name_distinct_keys(a: u8, b: u8)
    ensures
        scancode_key(a) is Some && scancode_key(a) == scancode_key(b) ==> a == b,
        extended_scancode_key(a) is Some && extended_scancode_key(a) == extended_scancode_key(b) ==> a == b,
        scancode_key(a) is Some ==> scancode_key(a) != extended_scancode_key(b),
{
}

/// The three letter rows of the US layout, left to right.
pub open spec fn qwerty_rows() -> Seq<Seq<KeyCode>> {
    seq![
        seq![KeyCode::Q, KeyCode::W, KeyCode::E, KeyCode::R, KeyCode::T, KeyCode::Y, KeyCode::U, KeyCode::I, KeyCode::O, KeyCode::P],
        seq![KeyCode::A, KeyCode::S, KeyCode::D, KeyCode::F, KeyCode::G, KeyCode::H, KeyCode::J, KeyCode::K, KeyCode::L],
        seq![KeyCode::Z, KeyCode::X, KeyCode::C, KeyCode::V, KeyCode::B, KeyCode::N, KeyCode::M],
    ]
}

/// The press code of the leftmost key of each letter row in scan code set 1.
pub open spec fn letter_row_start(row: int) -> int {
    if row == 0 {
        0x10
    } else if row == 1 {
        0x1e
    } else {
        0x2c
    }
}

/// In scan code set 1 each letter row of the keyboard takes consecutive
/// press codes from left to right: Q to P from 0x10, A to L from 0x1e, and
/// Z to M from 0x2c.
pub proof fn law_letter_rows_follow_layout(row: int, i: int)
    requires
        0 <= row < 3,
        0 <= i < qwerty_rows()[row].len(),
    ensures
        scancode_key((letter_row_start(row) + i) as u8) == Some(qwerty_rows()[row][i]),
{
    if row == 0 {
        assert(0 <= i < 10);
    } else if row == 1 {
        assert(0 <= i < 9);
    } else {
        assert(0 <= i < 7);
    }
}

/// Pressing a modifier key that was up and then releasing it reports
/// nothing and leaves the decoder and the modifiers as they were.
pub proof fn law_modifier_press_release(m: KeyModifiers, byte: u8)
    requires
        0x01 <= byte <= 0x58,
        scancode_key(byte) matches Some(k) && is_modifier_key(k) && modifiers_after(m, k, KeyDirection::Up) == m,
    ensures
        ({
            let pressed = keyboard_step(KeyboardState::Start, m, byte);
            let released = keyboard_step(pressed.0, pressed.1, (byte + 0x80) as u8);
            &&& pressed.2 == Ok::<Option<KeyEvent>, KeyError>(None)
            &&& released.2 == Ok::<Option<KeyEvent>, KeyError>(None)
            &&& released.0 == KeyboardState::Start
            &&& released.1 == m
        }),
{
    assert((byte + 0x80) as u8 - 0x80 == byte);
}

impl KeyModifiers {
    /// Modifiers with every key up.
    pub fn new() -> (r: Self)
        ensures
            r == all_modifiers_up(),
    {
        KeyModifiers {
            lctrl: false,
            rctrl: false,
            alt: false,
            alt_gr: false,
            lshift: false,
            rshift: false,
            caps_lock: false,
        }
    }
}

/// The modifiers with every key up.
pub open spec fn all_modifiers_up() -> KeyModifiers {
    KeyModifiers {
        lctrl: false,
        rctrl: false,
        alt: false,
        alt_gr: false,
        lshift: false,
        rshift: false,
        caps_lock: false,
    }
}

impl KeyCode {
    /// Whether the key is a modifier.
    pub fn is_modifier(&self) -> (r: bool)
        ensures
            r == is_modifier_key(*self),
    {
        match *self {
            KeyCode::LeftCtrl | KeyCode::RightCtrl | KeyCode::LeftShift | KeyCode::RightShift
            | KeyCode::LeftAlt | KeyCode::AltGr | KeyCode::CapsLock => true,
            _ => false,
        }
    }
}

impl Keyboard {
    /// A keyboard between scancodes with every modifier up.
    pub fn new() -> (r: Self)
        ensures
            r.state == KeyboardState::Start,
            r.modifiers == all_modifiers_up(),
    {
        Keyboard { state: KeyboardState::Start, modifiers: KeyModifiers::new() }
    }

    /// Takes one byte from the keyboard and reports the key event it
    /// completes, if any.
    pub fn process_byte(&mut self, byte: u8) -> (r: Result<Option<KeyEvent>, KeyError>)
        ensures
            ({
                let step = keyboard_step(old(self).state, old(self).modifiers, byte);
                &&& final(self).state == step.0
                &&& final(self).modifiers == step.1
                &&& r == step.2
            }),
    {
        match self.state {
            KeyboardState::Start => {
                if byte == EXTENDED_KEY_CODE {
                    self.state = KeyboardState::Extended;
                    Ok(None)
                } else if 0x01 <= byte && byte <= 0x58 {
                    let keycode = self.map_scancode(byte)?;
                    self.report(keycode, KeyDirection::Down)
                } else if 0x81 <= byte && byte <= 0xd8 {
                    let keycode = self.map_scancode(byte - 0x80)?;
                    self.report(keycode, KeyDirection::Up)
                } else {
                    Err(KeyError::UnknownScancode)
                }
            },
            KeyboardState::Extended => {
                self.state = KeyboardState::Start;
                if 0x10 <= byte && byte <= 0x90 {
                    let keycode = self.map_extended_scancode(byte)?;
                    self.report(keycode, KeyDirection::Down)
                } else if 0x99 <= byte && byte <= 0xed {
                    let keycode = self.map_extended_scancode(byte - 0x80)?;
                    self.report(keycode, KeyDirection::Up)
                } else {
                    Err(KeyError::UnknownScancode)
                }
            },
        }
    }

    /// Either records a modifier's movement or reports a key event.
    fn report(&mut self, keycode: KeyCode, direction: KeyDirection) -> (r: Result<Option<KeyEvent>, KeyError>)
        ensures
            final(self).state == old(self).state,
            final(self).modifiers == key_outcome(old(self).modifiers, Some(keycode), direction).0,
            r == key_outcome(old(self).modifiers, Some(keycode), direction).1,
    {
        if keycode.is_modifier() {
            self.transition_modifier(keycode, direction);
            Ok(None)
        } else {
            Ok(Some(KeyEvent { keycode, key_modifiers: self.modifiers, direction }))
        }
    }

    /// Records that a modifier key went down or up.
    fn transition_modifier(&mut self, keycode: KeyCode, direction: KeyDirection)
        requires
            is_modifier_key(keycode),
        ensures
            final(self).state == old(self).state,
            final(self).modifiers == modifiers_after(old(self).modifiers, keycode, direction),
    {
        let down = match direction {
            KeyDirection::Down => true,
            KeyDirection::Up => false,
        };
        match keycode {
            KeyCode::LeftCtrl => self.modifiers.lctrl = down,
            KeyCode::RightCtrl => self.modifiers.rctrl = down,
            KeyCode::LeftShift => self.modifiers.lshift = down,
            KeyCode::RightShift => self.modifiers.rshift = down,
            KeyCode::LeftAlt => self.modifiers.alt = down,
            KeyCode::AltGr => self.modifiers.alt_gr = down,
            _ => self.modifiers.caps_lock = down,
        }
    }

    /// Maps a regular press scancode to its key.
    fn map_scancode(&self, byte: u8) -> (r: Result<KeyCode, KeyError>)
        ensures
            r == key_lookup(scancode_key(byte)),
    {
        match byte {
            0x01u8 => Ok(KeyCode::Escape),
            0x02u8 => Ok(KeyCode::One),
            0x03u8 => Ok(KeyCode::Two),
            0x04u8 => Ok(KeyCode::Three),
            0x05u8 => Ok(KeyCode::Four),
            0x06u8 => Ok(KeyCode::Five),
            0x07u8 => Ok(KeyCode::Six),
            0x08u8 => Ok(KeyCode::Seven),
            0x09u8 => Ok(KeyCode::Eight),
            0x0au8 => Ok(KeyCode::Nine),
            0x0bu8 => Ok(KeyCode::Zero),
            0x0cu8 => Ok(KeyCode::Dash),
            0x0du8 => Ok(KeyCode::Equals),
            0x0eu8 => Ok(KeyCode::Backspace),
            0x0fu8 => Ok(KeyCode::Tab),
            0x10u8 => Ok(KeyCode::Q),
            0x11u8 => Ok(KeyCode::W),
            0x12u8 => Ok(KeyCode::E),
            0x13u8 => Ok(KeyCode::R),
            0x14u8 => Ok(KeyCode::T),
            0x15u8 => Ok(KeyCode::Y),
            0x16u8 => Ok(KeyCode::U),
            0x17u8 => Ok(KeyCode::I),
            0x18u8 => Ok(KeyCode::O),
            0x19u8 => Ok(KeyCode::P),
            0x1au8 => Ok(KeyCode::OpenBracket),
            0x1bu8 => Ok(KeyCode::CloseBracket),
            0x1cu8 => Ok(KeyCode::Enter),
            0x1du8 => Ok(KeyCode::LeftCtrl),
            0x1eu8 => Ok(KeyCode::A),
            0x1fu8 => Ok(KeyCode::S),
            0x20u8 => Ok(KeyCode::D),
            0x21u8 => Ok(KeyCode::F),
            0x22u8 => Ok(KeyCode::G),
            0x23u8 => Ok(KeyCode::H),
            0x24u8 => Ok(KeyCode::J),
            0x25u8 => Ok(KeyCode::K),
            0x26u8 => Ok(KeyCode::L),
            0x27u8 => Ok(KeyCode::SemiColon),
            0x28u8 => Ok(KeyCode::SingleQuote),
            0x29u8 => Ok(KeyCode::Backtick),
            0x2au8 => Ok(KeyCode::LeftShift),
            0x2bu8 => Ok(KeyCode::BackSlash),
            0x2cu8 => Ok(KeyCode::Z),
            0x2du8 => Ok(KeyCode::X),
            0x2eu8 => Ok(KeyCode::C),
            0x2fu8 => Ok(KeyCode::V),
            0x30u8 => Ok(KeyCode::B),
            0x31u8 => Ok(KeyCode::N),
            0x32u8 => Ok(KeyCode::M),
            0x33u8 => Ok(KeyCode::Comma),
            0x34u8 => Ok(KeyCode::Dot),
            0x35u8 => Ok(KeyCode::ForwardSlash),
            0x36u8 => Ok(KeyCode::RightShift),
            0x37u8 => Ok(KeyCode::KeypadStar),
            0x38u8 => Ok(KeyCode::LeftAlt),
            0x39u8 => Ok(KeyCode::Space),
            0x3au8 => Ok(KeyCode::CapsLock),
            0x3bu8 => Ok(KeyCode::F1),
            0x3cu8 => Ok(KeyCode::F2),
            0x3du8 => Ok(KeyCode::F3),
            0x3eu8 => Ok(KeyCode::F4),
            0x3fu8 => Ok(KeyCode::F5),
            0x40u8 => Ok(KeyCode::F6),
            0x41u8 => Ok(KeyCode::F7),
            0x42u8 => Ok(KeyCode::F8),
            0x43u8 => Ok(KeyCode::F9),
            0x44u8 => Ok(KeyCode::F10),
            0x57u8 => Ok(KeyCode::F11),
            0x58u8 => Ok(KeyCode::F12),
            0x45u8 => Ok(KeyCode::NumLock),
            0x46u8 => Ok(KeyCode::ScrollLock),
            0x47u8 => Ok(KeyCode::KeypadSeven),
            0x48u8 => Ok(KeyCode::KeypadEight),
            0x49u8 => Ok(KeyCode::KeypadNine),
            0x4au8 => Ok(KeyCode::KeypadDash),
            0x4bu8 => Ok(KeyCode::KeypadFour),
            0x4cu8 => Ok(KeyCode::KeypadFive),
            0x4du8 => Ok(KeyCode::KeypadSix),
            0x4eu8 => Ok(KeyCode::KeypadPlus),
            0x4fu8 => Ok(KeyCode::KeypadOne),
            0x50u8 => Ok(KeyCode::KeypadTwo),
            0x51u8 => Ok(KeyCode::KeypadThree),
            0x52u8 => Ok(KeyCode::KeypadZero),
            0x53u8 => Ok(KeyCode::KeypadDot),
            _ => Err(KeyError::UnknownScancode),
        }
    }

    /// Maps the second byte of an extended press scancode to its key.
    fn map_extended_scancode(&self, byte: u8) -> (r: Result<KeyCode, KeyError>)
        ensures
            r == key_lookup(extended_scancode_key(byte)),
    {
        match byte {
            0x10u8 => Ok(KeyCode::PrevTrack),
            0x19u8 => Ok(KeyCode::NextTrack),
            0x1cu8 => Ok(KeyCode::KeypadEnter),
            0x1du8 => Ok(KeyCode::RightCtrl),
            0x20u8 => Ok(KeyCode::Mute),
            0x21u8 => Ok(KeyCode::Calculator),
            0x22u8 => Ok(KeyCode::Play),
            0x24u8 => Ok(KeyCode::Stop),
            0x2eu8 => Ok(KeyCode::VolumeDown),
            0x30u8 => Ok(KeyCode::VolumeUp),
            0x32u8 => Ok(KeyCode::WWWHome),
            0x35u8 => Ok(KeyCode::KeypadForwardSlash),
            0x38u8 => Ok(KeyCode::AltGr),
            0x47u8 => Ok(KeyCode::Home),
            0x48u8 => Ok(KeyCode::ArrowUp),
            0x49u8 => Ok(KeyCode::PageUp),
            0x4bu8 => Ok(KeyCode::ArrowLeft),
            0x4du8 => Ok(KeyCode::ArrowRight),
            0x4fu8 => Ok(KeyCode::End),
            0x50u8 => Ok(KeyCode::ArrowDown),
            0x51u8 => Ok(KeyCode::PageDown),
            0x52u8 => Ok(KeyCode::Insert),
            0x53u8 => Ok(KeyCode::Delete),
            0x5bu8 => Ok(KeyCode::LeftGUI),
            0x5cu8 => Ok(KeyCode::RightGUI),
            0x5du8 => Ok(KeyCode::Apps),
            0x5eu8 => Ok(KeyCode::AcpiPower),
            0x5fu8 => Ok(KeyCode::AcpiSleep),
            0x63u8 => Ok(KeyCode::AcpiWake),
            0x65u8 => Ok(KeyCode::WWWSearch),
            0x66u8 => Ok(KeyCode::WWWFavorites),
            0x67u8 => Ok(KeyCode::WWWRefresh),
            0x68u8 => Ok(KeyCode::WWWStop),
            0x69u8 => Ok(KeyCode::WWWForward),
            0x6au8 => Ok(KeyCode::WWWBack),
            0x6bu8 => Ok(KeyCode::MyComputer),
            0x6cu8 => Ok(KeyCode::Email),
            0x6du8 => Ok(KeyCode::MediaSelect),
            _ => Err(KeyError::UnknownScancode),
        }
    }

}

} // verus!
