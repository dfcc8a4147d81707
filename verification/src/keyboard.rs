//! The scancode decoder: scancode set 1, US main-block layout.
//!
//! The decoder is an incremental state machine.  `add_byte` takes one raw
//! byte from the keyboard port: the extended prefix `0xE0` only records
//! that the next byte names an extended key and yields nothing; any other
//! byte completes a key-press or key-release event, or nothing when the
//! byte names no key of the layout (a desynchronized sequence is silently
//! dropped).  `process_keyevent` maps a completed event to a decoded key,
//! tracking the held shift keys: presses of ordinary keys yield either a
//! printable character (respecting shift) or a raw key; presses of the
//! shift keys and all releases yield nothing.
use vstd::prelude::*;

verus! {

/// The byte announcing a two-byte extended scancode.
pub const EXTENDED_PREFIX: u8 = 0xE0;

/// The keys of the supported layout.
#[derive(Clone, Copy, PartialEq, Eq, Structural, Debug)]
pub enum KeyCode {
    Escape,
    Key1,
    Key2,
    Key3,
    Key4,
    Key5,
    Key6,
    Key7,
    Key8,
    Key9,
    Key0,
    Minus,
    Equals,
    Backspace,
    Tab,
    Q,
    W,
    E,
    R,
    T,
    Y,
    U,
    I,
    O,
    P,
    LeftBracket,
    RightBracket,
    Enter,
    LeftCtrl,
    A,
    S,
    D,
    F,
    G,
    H,
    J,
    K,
    L,
    Semicolon,
    Apostrophe,
    Backtick,
    LeftShift,
    Backslash,
    Z,
    X,
    C,
    V,
    B,
    N,
    M,
    Comma,
    Period,
    Slash,
    RightShift,
    KeypadAsterisk,
    LeftAlt,
    Space,
    CapsLock,
    ArrowUp,
    ArrowLeft,
    ArrowRight,
    ArrowDown,
    RightCtrl,
    RightAlt,
}

/// Whether a key went down or came up.
#[derive(Clone, Copy, PartialEq, Eq, Structural, Debug)]
pub enum KeyState {
    Down,
    Up,
}

/// A completed key transition.
#[derive(Clone, Copy, PartialEq, Eq, Structural, Debug)]
pub struct KeyEvent {
    pub code: KeyCode,
    pub state: KeyState,
}

/// What a key press decodes to: a printable character, or the raw key for
/// keys without one.
#[derive(Clone, Copy, PartialEq, Eq, Structural, Debug)]
pub enum DecodedKey {
    RawKey(KeyCode),
    Unicode(char),
}

/// The single-byte make-code map of scancode set 1.
pub open spec fn scancode_to_key_spec(code: u8) -> Option<KeyCode> {
    match code {
        0x01u8 => Some(KeyCode::Escape),
        0x02u8 => Some(KeyCode::Key1),
        0x03u8 => Some(KeyCode::Key2),
        0x04u8 => Some(KeyCode::Key3),
        0x05u8 => Some(KeyCode::Key4),
        0x06u8 => Some(KeyCode::Key5),
        0x07u8 => Some(KeyCode::Key6),
        0x08u8 => Some(KeyCode::Key7),
        0x09u8 => Some(KeyCode::Key8),
        0x0Au8 => Some(KeyCode::Key9),
        0x0Bu8 => Some(KeyCode::Key0),
        0x0Cu8 => Some(KeyCode::Minus),
        0x0Du8 => Some(KeyCode::Equals),
        0x0Eu8 => Some(KeyCode::Backspace),
        0x0Fu8 => Some(KeyCode::Tab),
        0x10u8 => Some(KeyCode::Q),
        0x11u8 => Some(KeyCode::W),
        0x12u8 => Some(KeyCode::E),
        0x13u8 => Some(KeyCode::R),
        0x14u8 => Some(KeyCode::T),
        0x15u8 => Some(KeyCode::Y),
        0x16u8 => Some(KeyCode::U),
        0x17u8 => Some(KeyCode::I),
        0x18u8 => Some(KeyCode::O),
        0x19u8 => Some(KeyCode::P),
        0x1Au8 => Some(KeyCode::LeftBracket),
        0x1Bu8 => Some(KeyCode::RightBracket),
        0x1Cu8 => Some(KeyCode::Enter),
        0x1Du8 => Some(KeyCode::LeftCtrl),
        0x1Eu8 => Some(KeyCode::A),
        0x1Fu8 => Some(KeyCode::S),
        0x20u8 => Some(KeyCode::D),
        0x21u8 => Some(KeyCode::F),
        0x22u8 => Some(KeyCode::G),
        0x23u8 => Some(KeyCode::H),
        0x24u8 => Some(KeyCode::J),
        0x25u8 => Some(KeyCode::K),
        0x26u8 => Some(KeyCode::L),
        0x27u8 => Some(KeyCode::Semicolon),
        0x28u8 => Some(KeyCode::Apostrophe),
        0x29u8 => Some(KeyCode::Backtick),
        0x2Au8 => Some(KeyCode::LeftShift),
        0x2Bu8 => Some(KeyCode::Backslash),
        0x2Cu8 => Some(KeyCode::Z),
        0x2Du8 => Some(KeyCode::X),
        0x2Eu8 => Some(KeyCode::C),
        0x2Fu8 => Some(KeyCode::V),
        0x30u8 => Some(KeyCode::B),
        0x31u8 => Some(KeyCode::N),
        0x32u8 => Some(KeyCode::M),
        0x33u8 => Some(KeyCode::Comma),
        0x34u8 => Some(KeyCode::Period),
        0x35u8 => Some(KeyCode::Slash),
        0x36u8 => Some(KeyCode::RightShift),
        0x37u8 => Some(KeyCode::KeypadAsterisk),
        0x38u8 => Some(KeyCode::LeftAlt),
        0x39u8 => Some(KeyCode::Space),
        0x3Au8 => Some(KeyCode::CapsLock),
        _ => None,
    }
}

/// The map for the byte after the extended prefix.
pub open spec fn extended_to_key_spec(code: u8) -> Option<KeyCode> {
    match code {
        0x1Cu8 => Some(KeyCode::Enter),
        0x1Du8 => Some(KeyCode::RightCtrl),
        0x38u8 => Some(KeyCode::RightAlt),
        0x48u8 => Some(KeyCode::ArrowUp),
        0x4Bu8 => Some(KeyCode::ArrowLeft),
        0x4Du8 => Some(KeyCode::ArrowRight),
        0x50u8 => Some(KeyCode::ArrowDown),
        _ => None,
    }
}

/// The character a key press yields under the layout, if it yields one;
/// shift selects the upper legend.
pub open spec fn char_for_spec(code: KeyCode, shifted: bool) -> Option<char> {
    match code {
        KeyCode::Key1 => Some(if shifted { '!' } else { '1' }),
        KeyCode::Key2 => Some(if shifted { '@' } else { '2' }),
        KeyCode::Key3 => Some(if shifted { '#' } else { '3' }),
        KeyCode::Key4 => Some(if shifted { '$' } else { '4' }),
        KeyCode::Key5 => Some(if shifted { '%' } else { '5' }),
        KeyCode::Key6 => Some(if shifted { '^' } else { '6' }),
        KeyCode::Key7 => Some(if shifted { '&' } else { '7' }),
        KeyCode::Key8 => Some(if shifted { '*' } else { '8' }),
        KeyCode::Key9 => Some(if shifted { '(' } else { '9' }),
        KeyCode::Key0 => Some(if shifted { ')' } else { '0' }),
        KeyCode::Minus => Some(if shifted { '_' } else { '-' }),
        KeyCode::Equals => Some(if shifted { '+' } else { '=' }),
        KeyCode::Tab => Some('\t'),
        KeyCode::Q => Some(if shifted { 'Q' } else { 'q' }),
        KeyCode::W => Some(if shifted { 'W' } else { 'w' }),
        KeyCode::E => Some(if shifted { 'E' } else { 'e' }),
        KeyCode::R => Some(if shifted { 'R' } else { 'r' }),
        KeyCode::T => Some(if shifted { 'T' } else { 't' }),
        KeyCode::Y => Some(if shifted { 'Y' } else { 'y' }),
        KeyCode::U => Some(if shifted { 'U' } else { 'u' }),
        KeyCode::I => Some(if shifted { 'I' } else { 'i' }),
        KeyCode::O => Some(if shifted { 'O' } else { 'o' }),
        KeyCode::P => Some(if shifted { 'P' } else { 'p' }),
        KeyCode::LeftBracket => Some(if shifted { '{' } else { '[' }),
        KeyCode::RightBracket => Some(if shifted { '}' } else { ']' }),
        KeyCode::Enter => Some('\n'),
        KeyCode::A => Some(if shifted { 'A' } else { 'a' }),
        KeyCode::S => Some(if shifted { 'S' } else { 's' }),
        KeyCode::D => Some(if shifted { 'D' } else { 'd' }),
        KeyCode::F => Some(if shifted { 'F' } else { 'f' }),
        KeyCode::G => Some(if shifted { 'G' } else { 'g' }),
        KeyCode::H => Some(if shifted { 'H' } else { 'h' }),
        KeyCode::J => Some(if shifted { 'J' } else { 'j' }),
        KeyCode::K => Some(if shifted { 'K' } else { 'k' }),
        KeyCode::L => Some(if shifted { 'L' } else { 'l' }),
        KeyCode::Semicolon => Some(if shifted { ':' } else { ';' }),
        KeyCode::Apostrophe => Some(if shifted { '"' } else { '\'' }),
        KeyCode::Backtick => Some(if shifted { '~' } else { '`' }),
        KeyCode::Backslash => Some(if shifted { '|' } else { '\\' }),
        KeyCode::Z => Some(if shifted { 'Z' } else { 'z' }),
        KeyCode::X => Some(if shifted { 'X' } else { 'x' }),
        KeyCode::C => Some(if shifted { 'C' } else { 'c' }),
        KeyCode::V => Some(if shifted { 'V' } else { 'v' }),
        KeyCode::B => Some(if shifted { 'B' } else { 'b' }),
        KeyCode::N => Some(if shifted { 'N' } else { 'n' }),
        KeyCode::M => Some(if shifted { 'M' } else { 'm' }),
        KeyCode::Comma => Some(if shifted { '<' } else { ',' }),
        KeyCode::Period => Some(if shifted { '>' } else { '.' }),
        KeyCode::Slash => Some(if shifted { '?' } else { '/' }),
        KeyCode::KeypadAsterisk => Some('*'),
        KeyCode::Space => Some(' '),
        _ => None,
    }
}

/// The decoder state: a pending extended prefix and the held shift keys.
pub struct Keyboard {
    pub extended: bool,
    pub lshift: bool,
    pub rshift: bool,
}

/// What `add_byte` does: the successor state and the completed event, if
/// the byte completes one.
pub open spec fn add_byte_spec(st: Keyboard, byte: u8) -> (Keyboard, Option<KeyEvent>) {
    if byte == EXTENDED_PREFIX {
        (Keyboard { extended: true, ..st }, None)
    } else {
        let make = if byte >= 0x80 {
            (byte - 0x80) as u8
        } else {
            byte
        };
        let ks = if byte >= 0x80 {
            KeyState::Up
        } else {
            KeyState::Down
        };
        let key = if st.extended {
            extended_to_key_spec(make)
        } else {
            scancode_to_key_spec(make)
        };
        let st2 = Keyboard { extended: false, ..st };
        match key {
            Some(k) => (st2, Some(KeyEvent { code: k, state: ks })),
            None => (st2, None),
        }
    }
}

/// What a key press decodes to once the shift state is known.
pub open spec fn decode_key_spec(code: KeyCode, shifted: bool) -> DecodedKey {
    match char_for_spec(code, shifted) {
        Some(c) => DecodedKey::Unicode(c),
        None => DecodedKey::RawKey(code),
    }
}

/// What `process_keyevent` does: the successor state and the decoded key,
/// if the event yields one.
pub open spec fn process_event_spec(st: Keyboard, ev: KeyEvent) -> (Keyboard, Option<DecodedKey>) {
    match ev.state {
        KeyState::Down => match ev.code {
            KeyCode::LeftShift => (Keyboard { lshift: true, ..st }, None),
            KeyCode::RightShift => (Keyboard { rshift: true, ..st }, None),
            _ => (st, Some(decode_key_spec(ev.code, st.lshift || st.rshift))),
        },
        KeyState::Up => match ev.code {
            KeyCode::LeftShift => (Keyboard { lshift: false, ..st }, None),
            KeyCode::RightShift => (Keyboard { rshift: false, ..st }, None),
            _ => (st, None),
        },
    }
}

impl Keyboard {
    /// A fresh decoder: no pending prefix, no held shift.
    pub fn new() -> (r: Self)
        ensures
            !r.extended,
            !r.lshift,
            !r.rshift,
    {
        Keyboard { extended: false, lshift: false, rshift: false }
    }

    /// Advances the state machine by one raw byte; yields the completed
    /// event, or nothing while more bytes are awaited or the byte names no
    /// key of the layout.
    pub fn add_byte(&mut self, byte: u8) -> (r: Option<KeyEvent>)
        ensures
            *final(self) == add_byte_spec(*old(self), byte).0,
            r == add_byte_spec(*old(self), byte).1,
    {
        if byte == EXTENDED_PREFIX {
            self.extended = true;
            None
        } else {
            let make = if byte >= 0x80 {
                byte - 0x80
            } else {
                byte
            };
            let ks = if byte >= 0x80 {
                KeyState::Up
            } else {
                KeyState::Down
            };
            let key = if self.extended {
                extended_to_key(make)
            } else {
                scancode_to_key(make)
            };
            self.extended = false;
            match key {
                Some(k) => Some(KeyEvent { code: k, state: ks }),
                None => None,
            }
        }
    }

    /// Maps a completed event to a decoded key, respecting the held shift
    /// keys; shift transitions and releases yield nothing.
    pub fn process_keyevent(&mut self, ev: KeyEvent) -> (r: Option<DecodedKey>)
        ensures
            *final(self) == process_event_spec(*old(self), ev).0,
            r == process_event_spec(*old(self), ev).1,
    {
        match ev.state {
            KeyState::Down => match ev.code {
                KeyCode::LeftShift => {
                    self.lshift = true;
                    None
                },
                KeyCode::RightShift => {
                    self.rshift = true;
                    None
                },
                _ => {
                    let shifted = self.lshift || self.rshift;
                    Some(decode_key(ev.code, shifted))
                },
            },
            KeyState::Up => match ev.code {
                KeyCode::LeftShift => {
                    self.lshift = false;
                    None
                },
                KeyCode::RightShift => {
                    self.rshift = false;
                    None
                },
                _ => None,
            },
        }
    }
}

/// The single-byte make-code map, executable.
pub fn scancode_to_key(code: u8) -> (r: Option<KeyCode>)
    ensures
        r == scancode_to_key_spec(code),
{
    match code {
        0x01u8 => Some(KeyCode::Escape),
        0x02u8 => Some(KeyCode::Key1),
        0x03u8 => Some(KeyCode::Key2),
        0x04u8 => Some(KeyCode::Key3),
        0x05u8 => Some(KeyCode::Key4),
        0x06u8 => Some(KeyCode::Key5),
        0x07u8 => Some(KeyCode::Key6),
        0x08u8 => Some(KeyCode::Key7),
        0x09u8 => Some(KeyCode::Key8),
        0x0Au8 => Some(KeyCode::Key9),
        0x0Bu8 => Some(KeyCode::Key0),
        0x0Cu8 => Some(KeyCode::Minus),
        0x0Du8 => Some(KeyCode::Equals),
        0x0Eu8 => Some(KeyCode::Backspace),
        0x0Fu8 => Some(KeyCode::Tab),
        0x10u8 => Some(KeyCode::Q),
        0x11u8 => Some(KeyCode::W),
        0x12u8 => Some(KeyCode::E),
        0x13u8 => Some(KeyCode::R),
        0x14u8 => Some(KeyCode::T),
        0x15u8 => Some(KeyCode::Y),
        0x16u8 => Some(KeyCode::U),
        0x17u8 => Some(KeyCode::I),
        0x18u8 => Some(KeyCode::O),
        0x19u8 => Some(KeyCode::P),
        0x1Au8 => Some(KeyCode::LeftBracket),
        0x1Bu8 => Some(KeyCode::RightBracket),
        0x1Cu8 => Some(KeyCode::Enter),
        0x1Du8 => Some(KeyCode::LeftCtrl),
        0x1Eu8 => Some(KeyCode::A),
        0x1Fu8 => Some(KeyCode::S),
        0x20u8 => Some(KeyCode::D),
        0x21u8 => Some(KeyCode::F),
        0x22u8 => Some(KeyCode::G),
        0x23u8 => Some(KeyCode::H),
        0x24u8 => Some(KeyCode::J),
        0x25u8 => Some(KeyCode::K),
        0x26u8 => Some(KeyCode::L),
        0x27u8 => Some(KeyCode::Semicolon),
        0x28u8 => Some(KeyCode::Apostrophe),
        0x29u8 => Some(KeyCode::Backtick),
        0x2Au8 => Some(KeyCode::LeftShift),
        0x2Bu8 => Some(KeyCode::Backslash),
        0x2Cu8 => Some(KeyCode::Z),
        0x2Du8 => Some(KeyCode::X),
        0x2Eu8 => Some(KeyCode::C),
        0x2Fu8 => Some(KeyCode::V),
        0x30u8 => Some(KeyCode::B),
        0x31u8 => Some(KeyCode::N),
        0x32u8 => Some(KeyCode::M),
        0x33u8 => Some(KeyCode::Comma),
        0x34u8 => Some(KeyCode::Period),
        0x35u8 => Some(KeyCode::Slash),
        0x36u8 => Some(KeyCode::RightShift),
        0x37u8 => Some(KeyCode::KeypadAsterisk),
        0x38u8 => Some(KeyCode::LeftAlt),
        0x39u8 => Some(KeyCode::Space),
        0x3Au8 => Some(KeyCode::CapsLock),
        _ => None,
    }
}

/// The extended map, executable.
pub fn extended_to_key(code: u8) -> (r: Option<KeyCode>)
    ensures
        r == extended_to_key_spec(code),
{
    match code {
        0x1Cu8 => Some(KeyCode::Enter),
        0x1Du8 => Some(KeyCode::RightCtrl),
        0x38u8 => Some(KeyCode::RightAlt),
        0x48u8 => Some(KeyCode::ArrowUp),
        0x4Bu8 => Some(KeyCode::ArrowLeft),
        0x4Du8 => Some(KeyCode::ArrowRight),
        0x50u8 => Some(KeyCode::ArrowDown),
        _ => None,
    }
}

/// The character map, executable.
pub fn char_for(code: KeyCode, shifted: bool) -> (r: Option<char>)
    ensures
        r == char_for_spec(code, shifted),
{
    match code {
        KeyCode::Key1 => Some(if shifted { '!' } else { '1' }),
        KeyCode::Key2 => Some(if shifted { '@' } else { '2' }),
        KeyCode::Key3 => Some(if shifted { '#' } else { '3' }),
        KeyCode::Key4 => Some(if shifted { '$' } else { '4' }),
        KeyCode::Key5 => Some(if shifted { '%' } else { '5' }),
        KeyCode::Key6 => Some(if shifted { '^' } else { '6' }),
        KeyCode::Key7 => Some(if shifted { '&' } else { '7' }),
        KeyCode::Key8 => Some(if shifted { '*' } else { '8' }),
        KeyCode::Key9 => Some(if shifted { '(' } else { '9' }),
        KeyCode::Key0 => Some(if shifted { ')' } else { '0' }),
        KeyCode::Minus => Some(if shifted { '_' } else { '-' }),
        KeyCode::Equals => Some(if shifted { '+' } else { '=' }),
        KeyCode::Tab => Some('\t'),
        KeyCode::Q => Some(if shifted { 'Q' } else { 'q' }),
        KeyCode::W => Some(if shifted { 'W' } else { 'w' }),
        KeyCode::E => Some(if shifted { 'E' } else { 'e' }),
        KeyCode::R => Some(if shifted { 'R' } else { 'r' }),
        KeyCode::T => Some(if shifted { 'T' } else { 't' }),
        KeyCode::Y => Some(if shifted { 'Y' } else { 'y' }),
        KeyCode::U => Some(if shifted { 'U' } else { 'u' }),
        KeyCode::I => Some(if shifted { 'I' } else { 'i' }),
        KeyCode::O => Some(if shifted { 'O' } else { 'o' }),
        KeyCode::P => Some(if shifted { 'P' } else { 'p' }),
        KeyCode::LeftBracket => Some(if shifted { '{' } else { '[' }),
        KeyCode::RightBracket => Some(if shifted { '}' } else { ']' }),
        KeyCode::Enter => Some('\n'),
        KeyCode::A => Some(if shifted { 'A' } else { 'a' }),
        KeyCode::S => Some(if shifted { 'S' } else { 's' }),
        KeyCode::D => Some(if shifted { 'D' } else { 'd' }),
        KeyCode::F => Some(if shifted { 'F' } else { 'f' }),
        KeyCode::G => Some(if shifted { 'G' } else { 'g' }),
        KeyCode::H => Some(if shifted { 'H' } else { 'h' }),
        KeyCode::J => Some(if shifted { 'J' } else { 'j' }),
        KeyCode::K => Some(if shifted { 'K' } else { 'k' }),
        KeyCode::L => Some(if shifted { 'L' } else { 'l' }),
        KeyCode::Semicolon => Some(if shifted { ':' } else { ';' }),
        KeyCode::Apostrophe => Some(if shifted { '"' } else { '\'' }),
        KeyCode::Backtick => Some(if shifted { '~' } else { '`' }),
        KeyCode::Backslash => Some(if shifted { '|' } else { '\\' }),
        KeyCode::Z => Some(if shifted { 'Z' } else { 'z' }),
        KeyCode::X => Some(if shifted { 'X' } else { 'x' }),
        KeyCode::C => Some(if shifted { 'C' } else { 'c' }),
        KeyCode::V => Some(if shifted { 'V' } else { 'v' }),
        KeyCode::B => Some(if shifted { 'B' } else { 'b' }),
        KeyCode::N => Some(if shifted { 'N' } else { 'n' }),
        KeyCode::M => Some(if shifted { 'M' } else { 'm' }),
        KeyCode::Comma => Some(if shifted { '<' } else { ',' }),
        KeyCode::Period => Some(if shifted { '>' } else { '.' }),
        KeyCode::Slash => Some(if shifted { '?' } else { '/' }),
        KeyCode::KeypadAsterisk => Some('*'),
        KeyCode::Space => Some(' '),
        _ => None,
    }
}

/// Decodes one key press given the shift state, executable.
pub fn decode_key(code: KeyCode, shifted: bool) -> (r: DecodedKey)
    ensures
        r == decode_key_spec(code, shifted),
{
    match char_for(code, shifted) {
        Some(c) => DecodedKey::Unicode(c),
        None => DecodedKey::RawKey(code),
    }
}

/// The short console name of a key that decodes raw under the layout;
/// keys that always decode to a character never reach this map and name
/// the empty sequence.
pub open spec fn key_name_spec(k: KeyCode) -> Seq<u8> {
    match k {
        KeyCode::Escape => seq![0x45u8, 0x73, 0x63],
        KeyCode::Backspace => seq![0x42u8, 0x61, 0x63, 0x6B],
        KeyCode::LeftCtrl => seq![0x4Cu8, 0x43, 0x74, 0x72, 0x6C],
        KeyCode::RightCtrl => seq![0x52u8, 0x43, 0x74, 0x72, 0x6C],
        KeyCode::LeftAlt => seq![0x4Cu8, 0x41, 0x6C, 0x74],
        KeyCode::RightAlt => seq![0x52u8, 0x41, 0x6C, 0x74],
        KeyCode::CapsLock => seq![0x43u8, 0x61, 0x70, 0x73],
        KeyCode::ArrowUp => seq![0x55u8, 0x70],
        KeyCode::ArrowDown => seq![0x44u8, 0x6F, 0x77, 0x6E],
        KeyCode::ArrowLeft => seq![0x4Cu8, 0x65, 0x66, 0x74],
        KeyCode::ArrowRight => seq![0x52u8, 0x69, 0x67, 0x68, 0x74],
        _ => Seq::empty(),
    }
}

/// The short console name of a raw key, executable.
pub fn key_name(k: KeyCode) -> (r: Vec<u8>)
    ensures
        r@ == key_name_spec(k),
{
    let v: Vec<u8> = match k {
        KeyCode::Escape => vec![0x45, 0x73, 0x63],
        KeyCode::Backspace => vec![0x42, 0x61, 0x63, 0x6B],
        KeyCode::LeftCtrl => vec![0x4C, 0x43, 0x74, 0x72, 0x6C],
        KeyCode::RightCtrl => vec![0x52, 0x43, 0x74, 0x72, 0x6C],
        KeyCode::LeftAlt => vec![0x4C, 0x41, 0x6C, 0x74],
        KeyCode::RightAlt => vec![0x52, 0x41, 0x6C, 0x74],
        KeyCode::CapsLock => vec![0x43, 0x61, 0x70, 0x73],
        KeyCode::ArrowUp => vec![0x55, 0x70],
        KeyCode::ArrowDown => vec![0x44, 0x6F, 0x77, 0x6E],
        KeyCode::ArrowLeft => vec![0x4C, 0x65, 0x66, 0x74],
        KeyCode::ArrowRight => vec![0x52, 0x69, 0x67, 0x68, 0x74],
        _ => Vec::new(),
    };
    proof {
        assert(v@ =~= key_name_spec(k));
    }
    v
}

/// A make code the layout knows: a single byte, below the release bit,
/// naming a key.
pub open spec fn is_supported_make_code(b: u8) -> bool {
    b < 0x80 && scancode_to_key_spec(b) is Some
}

/// Law: feeding the decoder one legal single-byte make code completes
/// exactly one event, a press of the named key; feeding it only the
/// extended prefix completes none.
pub proof fn lemma_single_byte_press(st: Keyboard, b: u8)
    requires
        !st.extended,
        is_supported_make_code(b),
    ensures
        add_byte_spec(st, b).1 == Some(
            KeyEvent { code: scancode_to_key_spec(b)->Some_0, state: KeyState::Down },
        ),
        add_byte_spec(st, EXTENDED_PREFIX).1 is None,
{
}

} // verus!

