use vstd::prelude::*;
use crate::text::{char_string, decimal, str_equal, u64_to_decimal};

verus! {

/// Modifier bits of a key press: none held.
pub const NONE: u8 = 0;
/// Modifier bit of the Shift key.
pub const SHIFT: u8 = 1;
/// Modifier bit of the Control key.
pub const CONTROL: u8 = 2;
/// Modifier bit of the Alt key.
pub const ALT: u8 = 4;

/// Media keys, in the order in which the terminal layer declares them.
#[derive(Clone, Copy, Debug, PartialEq, Eq, Hash, Structural)]
pub enum MediaKeyCode {
    Play,
    Pause,
    PlayPause,
    Reverse,
    Stop,
    FastForward,
    Rewind,
    TrackNext,
    TrackPrevious,
    Record,
    LowerVolume,
    RaiseVolume,
    MuteVolume,
}

/// Modifier keys pressed on their own, in declaration order.
#[derive(Clone, Copy, Debug, PartialEq, Eq, Hash, Structural)]
pub enum ModifierKeyCode {
    LeftShift,
    LeftControl,
    LeftAlt,
    LeftSuper,
    LeftHyper,
    LeftMeta,
    RightShift,
    RightControl,
    RightAlt,
    RightSuper,
    RightHyper,
    RightMeta,
    IsoLevel3Shift,
    IsoLevel5Shift,
}

/// The key of a key press, in the order in which the terminal layer declares
/// its key codes (that order is the order of keys).
#[derive(Clone, Copy, Debug, PartialEq, Eq, Hash, Structural)]
pub enum KeyCode {
    Backspace,
    Enter,
    Left,
    Right,
    Up,
    Down,
    Home,
    End,
    PageUp,
    PageDown,
    Tab,
    BackTab,
    Delete,
    Insert,
    F(u8),
    Char(char),
    Null,
    Esc,
    CapsLock,
    ScrollLock,
    NumLock,
    PrintScreen,
    Pause,
    Menu,
    KeypadBegin,
    Media(MediaKeyCode),
    Modifier(ModifierKeyCode),
}

/// A key binding: a key code and the modifier bits held with it.
#[derive(Clone, Copy, Debug, PartialEq, Eq, Hash, Structural)]
pub struct Key(pub KeyCode, pub u8);

/// Why a text is not a key binding.
#[derive(Clone, Copy, Debug, PartialEq, Eq, Structural)]
pub enum KeyParseError {
    /// "invalid key modifier": a prefix before `-` other than `Ctrl` or `Shift`.
    InvalidKeyModifier,
    /// "invalid key": the part after the first `-` is not one character.
    InvalidKey,
    /// "unsupported key code": no `-`, and neither a key name nor one ASCII character.
    UnsupportedKeyCode,
}

/// Why a key binding has no text form.
#[derive(Clone, Copy, Debug, PartialEq, Eq, Structural)]
pub enum KeyTextError {
    /// "unsupported key modifier": modifiers other than none, Control alone or Shift alone.
    UnsupportedKeyModifier,
}

// ---------------------------------------------------------------------------
// Order of keys

pub open spec fn media_index(m: MediaKeyCode) -> nat {
    match m {
        MediaKeyCode::Play => 0,
        MediaKeyCode::Pause => 1,
        MediaKeyCode::PlayPause => 2,
        MediaKeyCode::Reverse => 3,
        MediaKeyCode::Stop => 4,
        MediaKeyCode::FastForward => 5,
        MediaKeyCode::Rewind => 6,
        MediaKeyCode::TrackNext => 7,
        MediaKeyCode::TrackPrevious => 8,
        MediaKeyCode::Record => 9,
        MediaKeyCode::LowerVolume => 10,
        MediaKeyCode::RaiseVolume => 11,
        MediaKeyCode::MuteVolume => 12,
    }
}

pub open spec fn modifier_index(m: ModifierKeyCode) -> nat {
    match m {
        ModifierKeyCode::LeftShift => 0,
        ModifierKeyCode::LeftControl => 1,
        ModifierKeyCode::LeftAlt => 2,
        ModifierKeyCode::LeftSuper => 3,
        ModifierKeyCode::LeftHyper => 4,
        ModifierKeyCode::LeftMeta => 5,
        ModifierKeyCode::RightShift => 6,
        ModifierKeyCode::RightControl => 7,
        ModifierKeyCode::RightAlt => 8,
        ModifierKeyCode::RightSuper => 9,
        ModifierKeyCode::RightHyper => 10,
        ModifierKeyCode::RightMeta => 11,
        ModifierKeyCode::IsoLevel3Shift => 12,
        ModifierKeyCode::IsoLevel5Shift => 13,
    }
}

/// Position of a key code's variant in the declaration order.
pub open spec fn code_variant(c: KeyCode) -> nat {
    match c {
        KeyCode::Backspace => 0,
        KeyCode::Enter => 1,
        KeyCode::Left => 2,
        KeyCode::Right => 3,
        KeyCode::Up => 4,
        KeyCode::Down => 5,
        KeyCode::Home => 6,
        KeyCode::End => 7,
        KeyCode::PageUp => 8,
        KeyCode::PageDown => 9,
        KeyCode::Tab => 10,
        KeyCode::BackTab => 11,
        KeyCode::Delete => 12,
        KeyCode::Insert => 13,
        KeyCode::F(_) => 14,
        KeyCode::Char(_) => 15,
        KeyCode::Null => 16,
        KeyCode::Esc => 17,
        KeyCode::CapsLock => 18,
        KeyCode::ScrollLock => 19,
        KeyCode::NumLock => 20,
        KeyCode::PrintScreen => 21,
        KeyCode::Pause => 22,
        KeyCode::Menu => 23,
        KeyCode::KeypadBegin => 24,
        KeyCode::Media(_) => 25,
        KeyCode::Modifier(_) => 26,
    }
}

/// The value a key code carries, compared after the variant.
pub open spec fn code_payload(c: KeyCode) -> nat {
    match c {
        KeyCode::F(n) => n as nat,
        KeyCode::Char(ch) => ch as nat,
        KeyCode::Media(m) => media_index(m),
        KeyCode::Modifier(m) => modifier_index(m),
        _ => 0,
    }
}

/// Number identifying a key: modifier bits first, then the code's variant,
/// then its payload. Keys are ordered by this number.
pub open spec fn key_number(k: Key) -> nat {
    k.1 as nat * 0x100_0000_0000 + code_variant(k.0) * 0x1_0000_0000 + code_payload(k.0)
}

/// `a` orders before `b`: modifiers compared first, then key codes.
pub open spec fn key_less(a: Key, b: Key) -> bool {
    key_number(a) < key_number(b)
}

proof fn lemma_payload_bound(c: KeyCode)
    ensures
        code_payload(c) < 0x1_0000_0000,
        code_variant(c) < 0x100,
{
}

proof fn lemma_split_number(a1: nat, b1: nat, a2: nat, b2: nat, base: nat)
    requires
        base > 0,
        b1 < base,
        b2 < base,
        a1 * base + b1 == a2 * base + b2,
    ensures
        a1 == a2,
        b1 == b2,
    decreases a1 + a2,
{
    if a1 > 0 && a2 > 0 {
        assert((a1 - 1) as nat * base + b1 == (a2 - 1) as nat * base + b2) by (nonlinear_arith)
            requires
                a1 * base + b1 == a2 * base + b2,
                a1 > 0,
                a2 > 0,
        ;
        lemma_split_number((a1 - 1) as nat, b1, (a2 - 1) as nat, b2, base);
    } else if a1 > 0 {
        assert(a1 * base >= base) by (nonlinear_arith)
            requires
                a1 > 0,
                base > 0,
        ;
        assert(a2 == 0);
    } else if a2 > 0 {
        assert(a2 * base >= base) by (nonlinear_arith)
            requires
                a2 > 0,
                base > 0,
        ;
    }
}

/// Keys are identified by their number: two keys with one number are one key.
pub proof fn lemma_key_number_injective(a: Key, b: Key)
    requires
        key_number(a) == key_number(b),
    ensures
        a == b,
{
    lemma_payload_bound(a.0);
    lemma_payload_bound(b.0);
    let ca = code_variant(a.0) * 0x1_0000_0000 + code_payload(a.0);
    let cb = code_variant(b.0) * 0x1_0000_0000 + code_payload(b.0);
    assert(ca < 0x100_0000_0000) by (nonlinear_arith)
        requires
            code_variant(a.0) < 0x100,
            code_payload(a.0) < 0x1_0000_0000,
            ca == code_variant(a.0) * 0x1_0000_0000 + code_payload(a.0),
    ;
    assert(cb < 0x100_0000_0000) by (nonlinear_arith)
        requires
            code_variant(b.0) < 0x100,
            code_payload(b.0) < 0x1_0000_0000,
            cb == code_variant(b.0) * 0x1_0000_0000 + code_payload(b.0),
    ;
    lemma_split_number(a.1 as nat, ca, b.1 as nat, cb, 0x100_0000_0000);
    lemma_split_number(code_variant(a.0), code_payload(a.0), code_variant(b.0), code_payload(b.0), 0x1_0000_0000);
    match a.0 {
        KeyCode::Media(m) => {
            match b.0 {
                KeyCode::Media(n) => {
                    assert(m == n);
                },
                _ => {},
            }
        },
        KeyCode::Modifier(m) => {
            match b.0 {
                KeyCode::Modifier(n) => {
                    assert(m == n);
                },
                _ => {},
            }
        },
        _ => {},
    }
}

fn media_index_exec(m: MediaKeyCode) -> (r: u64)
    ensures
        r == media_index(m),
{
    match m {
        MediaKeyCode::Play => 0,
        MediaKeyCode::Pause => 1,
        MediaKeyCode::PlayPause => 2,
        MediaKeyCode::Reverse => 3,
        MediaKeyCode::Stop => 4,
        MediaKeyCode::FastForward => 5,
        MediaKeyCode::Rewind => 6,
        MediaKeyCode::TrackNext => 7,
        MediaKeyCode::TrackPrevious => 8,
        MediaKeyCode::Record => 9,
        MediaKeyCode::LowerVolume => 10,
        MediaKeyCode::RaiseVolume => 11,
        MediaKeyCode::MuteVolume => 12,
    }
}

fn modifier_index_exec(m: ModifierKeyCode) -> (r: u64)
    ensures
        r == modifier_index(m),
{
    match m {
        ModifierKeyCode::LeftShift => 0,
        ModifierKeyCode::LeftControl => 1,
        ModifierKeyCode::LeftAlt => 2,
        ModifierKeyCode::LeftSuper => 3,
        ModifierKeyCode::LeftHyper => 4,
        ModifierKeyCode::LeftMeta => 5,
        ModifierKeyCode::RightShift => 6,
        ModifierKeyCode::RightControl => 7,
        ModifierKeyCode::RightAlt => 8,
        ModifierKeyCode::RightSuper => 9,
        ModifierKeyCode::RightHyper => 10,
        ModifierKeyCode::RightMeta => 11,
        ModifierKeyCode::IsoLevel3Shift => 12,
        ModifierKeyCode::IsoLevel5Shift => 13,
    }
}

fn code_variant_exec(c: KeyCode) -> (r: u64)
    ensures
        r == code_variant(c),
{
    match c {
        KeyCode::Backspace => 0,
        KeyCode::Enter => 1,
        KeyCode::Left => 2,
        KeyCode::Right => 3,
        KeyCode::Up => 4,
        KeyCode::Down => 5,
        KeyCode::Home => 6,
        KeyCode::End => 7,
        KeyCode::PageUp => 8,
        KeyCode::PageDown => 9,
        KeyCode::Tab => 10,
        KeyCode::BackTab => 11,
        KeyCode::Delete => 12,
        KeyCode::Insert => 13,
        KeyCode::F(_) => 14,
        KeyCode::Char(_) => 15,
        KeyCode::Null => 16,
        KeyCode::Esc => 17,
        KeyCode::CapsLock => 18,
        KeyCode::ScrollLock => 19,
        KeyCode::NumLock => 20,
        KeyCode::PrintScreen => 21,
        KeyCode::Pause => 22,
        KeyCode::Menu => 23,
        KeyCode::KeypadBegin => 24,
        KeyCode::Media(_) => 25,
        KeyCode::Modifier(_) => 26,
    }
}

fn code_payload_exec(c: KeyCode) -> (r: u64)
    ensures
        r == code_payload(c),
{
    match c {
        KeyCode::F(n) => n as u64,
        KeyCode::Char(ch) => ch as u64,
        KeyCode::Media(m) => media_index_exec(m),
        KeyCode::Modifier(m) => modifier_index_exec(m),
        _ => 0,
    }
}

impl Key {
    /// The number that orders and identifies this key (see `key_number`).
    pub fn number(&self) -> (r: u64)
        ensures
            r == key_number(*self),
    {
        proof {
            lemma_payload_bound(self.0);
        }
        let v = code_variant_exec(self.0);
        let p = code_payload_exec(self.0);
        let m = self.1 as u64;
        assert(m * 0x100_0000_0000 + v * 0x1_0000_0000 + p < 0x1_0000_0000_0000_0000) by (nonlinear_arith)
            requires
                m < 0x100,
                v < 0x100,
                p < 0x1_0000_0000,
        ;
        m * 0x100_0000_0000 + v * 0x1_0000_0000 + p
    }
}

/// Three-way result of comparing two keys.
#[derive(Clone, Copy, Debug, PartialEq, Eq, Structural)]
pub enum KeyOrder {
    Less,
    Equal,
    Greater,
}

/// Compares two keys: by their modifier bits first, and where those are equal
/// by their key codes in declaration order (then by the code's payload).
pub fn key_order(a: &Key, b: &Key) -> (r: KeyOrder)
    ensures
        r == KeyOrder::Less <==> key_less(*a, *b),
        r == KeyOrder::Greater <==> key_less(*b, *a),
        r == KeyOrder::Equal <==> *a == *b,
{
    let na = a.number();
    let nb = b.number();
    if na < nb {
        KeyOrder::Less
    } else if nb < na {
        KeyOrder::Greater
    } else {
        proof {
            lemma_key_number_injective(*a, *b);
        }
        KeyOrder::Equal
    }
}

// ---------------------------------------------------------------------------
// Text form of keys

pub open spec fn media_name(m: MediaKeyCode) -> Seq<char> {
    match m {
        MediaKeyCode::Play => "Play"@,
        MediaKeyCode::Pause => "Pause"@,
        MediaKeyCode::PlayPause => "PlayPause"@,
        MediaKeyCode::Reverse => "Reverse"@,
        MediaKeyCode::Stop => "Stop"@,
        MediaKeyCode::FastForward => "FastForward"@,
        MediaKeyCode::Rewind => "Rewind"@,
        MediaKeyCode::TrackNext => "TrackNext"@,
        MediaKeyCode::TrackPrevious => "TrackPrevious"@,
        MediaKeyCode::Record => "Record"@,
        MediaKeyCode::LowerVolume => "LowerVolume"@,
        MediaKeyCode::RaiseVolume => "RaiseVolume"@,
        MediaKeyCode::MuteVolume => "MuteVolume"@,
    }
}

pub open spec fn modifier_name(m: ModifierKeyCode) -> Seq<char> {
    match m {
        ModifierKeyCode::LeftShift => "LeftShift"@,
        ModifierKeyCode::LeftControl => "LeftControl"@,
        ModifierKeyCode::LeftAlt => "LeftAlt"@,
        ModifierKeyCode::LeftSuper => "LeftSuper"@,
        ModifierKeyCode::LeftHyper => "LeftHyper"@,
        ModifierKeyCode::LeftMeta => "LeftMeta"@,
        ModifierKeyCode::RightShift => "RightShift"@,
        ModifierKeyCode::RightControl => "RightControl"@,
        ModifierKeyCode::RightAlt => "RightAlt"@,
        ModifierKeyCode::RightSuper => "RightSuper"@,
        ModifierKeyCode::RightHyper => "RightHyper"@,
        ModifierKeyCode::RightMeta => "RightMeta"@,
        ModifierKeyCode::IsoLevel3Shift => "IsoLevel3Shift"@,
        ModifierKeyCode::IsoLevel5Shift => "IsoLevel5Shift"@,
    }
}

/// Text of a key code: a character stands for itself; every other code is
/// written as its variant name, with its payload in brackets where it has one
/// (`F(5)`, `Media(Play)`).
pub open spec fn key_code_text(c: KeyCode) -> Seq<char> {
    match c {
        KeyCode::Backspace => "Backspace"@,
        KeyCode::Enter => "Enter"@,
        KeyCode::Left => "Left"@,
        KeyCode::Right => "Right"@,
        KeyCode::Up => "Up"@,
        KeyCode::Down => "Down"@,
        KeyCode::Home => "Home"@,
        KeyCode::End => "End"@,
        KeyCode::PageUp => "PageUp"@,
        KeyCode::PageDown => "PageDown"@,
        KeyCode::Tab => "Tab"@,
        KeyCode::BackTab => "BackTab"@,
        KeyCode::Delete => "Delete"@,
        KeyCode::Insert => "Insert"@,
        KeyCode::F(n) => "F("@ + decimal(n as nat) + ")"@,
        KeyCode::Char(ch) => seq![ch],
        KeyCode::Null => "Null"@,
        KeyCode::Esc => "Esc"@,
        KeyCode::CapsLock => "CapsLock"@,
        KeyCode::ScrollLock => "ScrollLock"@,
        KeyCode::NumLock => "NumLock"@,
        KeyCode::PrintScreen => "PrintScreen"@,
        KeyCode::Pause => "Pause"@,
        KeyCode::Menu => "Menu"@,
        KeyCode::KeypadBegin => "KeypadBegin"@,
        KeyCode::Media(m) => "Media("@ + media_name(m) + ")"@,
        KeyCode::Modifier(m) => "Modifier("@ + modifier_name(m) + ")"@,
    }
}

/// Text of a key binding: the code's text alone without modifiers, prefixed
/// with `Ctrl-` or `Shift-` when exactly that modifier is held, and none for
/// any other modifier bits.
pub open spec fn key_text(k: Key) -> Option<Seq<char>> {
    if k.1 == NONE {
        Some(key_code_text(k.0))
    } else if k.1 == CONTROL {
        Some("Ctrl-"@ + key_code_text(k.0))
    } else if k.1 == SHIFT {
        Some("Shift-"@ + key_code_text(k.0))
    } else {
        None
    }
}

fn media_name_exec(m: MediaKeyCode) -> (r: &'static str)
    ensures
        r@ == media_name(m),
{
    match m {
        MediaKeyCode::Play => "Play",
        MediaKeyCode::Pause => "Pause",
        MediaKeyCode::PlayPause => "PlayPause",
        MediaKeyCode::Reverse => "Reverse",
        MediaKeyCode::Stop => "Stop",
        MediaKeyCode::FastForward => "FastForward",
        MediaKeyCode::Rewind => "Rewind",
        MediaKeyCode::TrackNext => "TrackNext",
        MediaKeyCode::TrackPrevious => "TrackPrevious",
        MediaKeyCode::Record => "Record",
        MediaKeyCode::LowerVolume => "LowerVolume",
        MediaKeyCode::RaiseVolume => "RaiseVolume",
        MediaKeyCode::MuteVolume => "MuteVolume",
    }
}

fn modifier_name_exec(m: ModifierKeyCode) -> (r: &'static str)
    ensures
        r@ == modifier_name(m),
{
    match m {
        ModifierKeyCode::LeftShift => "LeftShift",
        ModifierKeyCode::LeftControl => "LeftControl",
        ModifierKeyCode::LeftAlt => "LeftAlt",
        ModifierKeyCode::LeftSuper => "LeftSuper",
        ModifierKeyCode::LeftHyper => "LeftHyper",
        ModifierKeyCode::LeftMeta => "LeftMeta",
        ModifierKeyCode::RightShift => "RightShift",
        ModifierKeyCode::RightControl => "RightControl",
        ModifierKeyCode::RightAlt => "RightAlt",
        ModifierKeyCode::RightSuper => "RightSuper",
        ModifierKeyCode::RightHyper => "RightHyper",
        ModifierKeyCode::RightMeta => "RightMeta",
        ModifierKeyCode::IsoLevel3Shift => "IsoLevel3Shift",
        ModifierKeyCode::IsoLevel5Shift => "IsoLevel5Shift",
    }
}

fn bracketed(prefix: &str, inner: &str) -> (r: String)
    ensures
        r@ == prefix@ + inner@ + ")"@,
{
    let mut s = String::from_str(prefix);
    s.append(inner);
    s.append(")");
    s
}

/// The text of a key code (see `key_code_text`).
pub fn key_code_to_string(c: KeyCode) -> (r: String)
    ensures
        r@ == key_code_text(c),
{
    match c {
        KeyCode::Backspace => String::from_str("Backspace"),
        KeyCode::Enter => String::from_str("Enter"),
        KeyCode::Left => String::from_str("Left"),
        KeyCode::Right => String::from_str("Right"),
        KeyCode::Up => String::from_str("Up"),
        KeyCode::Down => String::from_str("Down"),
        KeyCode::Home => String::from_str("Home"),
        KeyCode::End => String::from_str("End"),
        KeyCode::PageUp => String::from_str("PageUp"),
        KeyCode::PageDown => String::from_str("PageDown"),
        KeyCode::Tab => String::from_str("Tab"),
        KeyCode::BackTab => String::from_str("BackTab"),
        KeyCode::Delete => String::from_str("Delete"),
        KeyCode::Insert => String::from_str("Insert"),
        KeyCode::F(n) => {
            let digits = u64_to_decimal(n as u64);
            bracketed("F(", digits.as_str())
        },
        KeyCode::Char(ch) => char_string(ch),
        KeyCode::Null => String::from_str("Null"),
        KeyCode::Esc => String::from_str("Esc"),
        KeyCode::CapsLock => String::from_str("CapsLock"),
        KeyCode::ScrollLock => String::from_str("ScrollLock"),
        KeyCode::NumLock => String::from_str("NumLock"),
        KeyCode::PrintScreen => String::from_str("PrintScreen"),
        KeyCode::Pause => String::from_str("Pause"),
        KeyCode::Menu => String::from_str("Menu"),
        KeyCode::KeypadBegin => String::from_str("KeypadBegin"),
        KeyCode::Media(m) => bracketed("Media(", media_name_exec(m)),
        KeyCode::Modifier(m) => bracketed("Modifier(", modifier_name_exec(m)),
    }
}

impl Key {
    /// The text form of this binding, as written in configuration files and
    /// shown in menus (see `key_text`).
    pub fn to_text(&self) -> (r: Result<String, KeyTextError>)
        ensures
            match r {
                Ok(s) => key_text(*self) == Some(s@),
                Err(e) => key_text(*self) is None && e == KeyTextError::UnsupportedKeyModifier,
            },
    {
        let code = key_code_to_string(self.0);
        if self.1 == NONE {
            Ok(code)
        } else if self.1 == CONTROL {
            let mut s = String::from_str("Ctrl-");
            s.append(code.as_str());
            Ok(s)
        } else if self.1 == SHIFT {
            let mut s = String::from_str("Shift-");
            s.append(code.as_str());
            Ok(s)
        } else {
            Err(KeyTextError::UnsupportedKeyModifier)
        }
    }
}

// ---------------------------------------------------------------------------
// Reading keys from text

/// `i` is the position of the first `-` in `s`.
pub open spec fn is_first_dash(s: Seq<char>, i: int) -> bool {
    &&& 0 <= i < s.len()
    &&& s[i] == '-'
    &&& forall|j: int| 0 <= j < i ==> s[j] != '-'
}

/// The key codes that are read by name.
pub open spec fn named_key_code(s: Seq<char>) -> Option<KeyCode> {
    if s == "Backspace"@ {
        Some(KeyCode::Backspace)
    } else if s == "Enter"@ {
        Some(KeyCode::Enter)
    } else if s == "Left"@ {
        Some(KeyCode::Left)
    } else if s == "Right"@ {
        Some(KeyCode::Right)
    } else if s == "Up"@ {
        Some(KeyCode::Up)
    } else if s == "Down"@ {
        Some(KeyCode::Down)
    } else if s == "Home"@ {
        Some(KeyCode::Home)
    } else if s == "End"@ {
        Some(KeyCode::End)
    } else if s == "PageUp"@ {
        Some(KeyCode::PageUp)
    } else if s == "PageDown"@ {
        Some(KeyCode::PageDown)
    } else if s == "Tab"@ {
        Some(KeyCode::Tab)
    } else if s == "BackTab"@ {
        Some(KeyCode::BackTab)
    } else if s == "Delete"@ {
        Some(KeyCode::Delete)
    } else if s == "Insert"@ {
        Some(KeyCode::Insert)
    } else if s == "Esc"@ {
        Some(KeyCode::Esc)
    } else {
        None
    }
}

/// What a text reads as, as a key binding.
///
/// With a `-` in it, the text before the first `-` is the modifier (`Ctrl` or
/// `Shift`) and the text after it must be exactly one character. Without one,
/// it is a key name read with no modifier, or a single one-byte (ASCII)
/// character.
pub open spec fn spec_parse_key(s: Seq<char>) -> Result<Key, KeyParseError> {
    if exists|i: int| is_first_dash(s, i) {
        let i = choose|i: int| is_first_dash(s, i);
        let modifier = s.subrange(0, i);
        let code = s.subrange(i + 1, s.len() as int);
        if code.len() == 1 {
            if modifier == "Ctrl"@ {
                Ok(Key(KeyCode::Char(code[0]), CONTROL))
            } else if modifier == "Shift"@ {
                Ok(Key(KeyCode::Char(code[0]), SHIFT))
            } else {
                Err(KeyParseError::InvalidKeyModifier)
            }
        } else {
            Err(KeyParseError::InvalidKey)
        }
    } else {
        match named_key_code(s) {
            Some(c) => Ok(Key(c, NONE)),
            None => if s.len() == 1 && (s[0] as u32) < 128 {
                Ok(Key(KeyCode::Char(s[0]), NONE))
            } else {
                Err(KeyParseError::UnsupportedKeyCode)
            },
        }
    }
}

fn named_key_code_exec(s: &str) -> (r: Option<KeyCode>)
    ensures
        r == named_key_code(s@),
{
    if str_equal(s, "Backspace") {
        Some(KeyCode::Backspace)
    } else if str_equal(s, "Enter") {
        Some(KeyCode::Enter)
    } else if str_equal(s, "Left") {
        Some(KeyCode::Left)
    } else if str_equal(s, "Right") {
        Some(KeyCode::Right)
    } else if str_equal(s, "Up") {
        Some(KeyCode::Up)
    } else if str_equal(s, "Down") {
        Some(KeyCode::Down)
    } else if str_equal(s, "Home") {
        Some(KeyCode::Home)
    } else if str_equal(s, "End") {
        Some(KeyCode::End)
    } else if str_equal(s, "PageUp") {
        Some(KeyCode::PageUp)
    } else if str_equal(s, "PageDown") {
        Some(KeyCode::PageDown)
    } else if str_equal(s, "Tab") {
        Some(KeyCode::Tab)
    } else if str_equal(s, "BackTab") {
        Some(KeyCode::BackTab)
    } else if str_equal(s, "Delete") {
        Some(KeyCode::Delete)
    } else if str_equal(s, "Insert") {
        Some(KeyCode::Insert)
    } else if str_equal(s, "Esc") {
        Some(KeyCode::Esc)
    } else {
        None
    }
}

impl Key {
    /// Reads a key binding from its text form (see `spec_parse_key`).
    pub fn parse(s: &str) -> (r: Result<Key, KeyParseError>)
        ensures
            r == spec_parse_key(s@),
    {
        let n = s.unicode_len();
        let mut i: usize = 0;
        while i < n
            invariant
                n == s@.len(),
                i <= n,
                forall|j: int| 0 <= j < i ==> s@[j] != '-',
            ensures
                i < n ==> s@[i as int] == '-',
            decreases n - i,
        {
            if s.get_char(i) == '-' {
                break;
            }
            i = i + 1;
        }
        if i < n {
            assert(s@[i as int] == '-');
            assert(is_first_dash(s@, i as int));
            assert forall|k: int| is_first_dash(s@, k) implies k == i by {
                if k < i {
                    assert(s@[k] != '-');
                } else if k > i {
                    assert(s@[i as int] != '-');
                }
            }
            let modifier = s.substring_char(0, i);
            if n - i - 1 == 1 {
                let c = s.get_char(i + 1);
                assert(s@.subrange(i + 1, n as int)[0] == c);
                if str_equal(modifier, "Ctrl") {
                    Ok(Key(KeyCode::Char(c), CONTROL))
                } else if str_equal(modifier, "Shift") {
                    Ok(Key(KeyCode::Char(c), SHIFT))
                } else {
                    Err(KeyParseError::InvalidKeyModifier)
                }
            } else {
                Err(KeyParseError::InvalidKey)
            }
        } else {
            assert(!exists|k: int| is_first_dash(s@, k));
            match named_key_code_exec(s) {
                Some(c) => Ok(Key(c, NONE)),
                None => {
                    if n == 1 {
                        let c = s.get_char(0);
                        if (c as u32) < 128 {
                            Ok(Key(KeyCode::Char(c), NONE))
                        } else {
                            Err(KeyParseError::UnsupportedKeyCode)
                        }
                    } else {
                        Err(KeyParseError::UnsupportedKeyCode)
                    }
                },
            }
        }
    }
}


// ---------------------------------------------------------------------------
// Laws of the text form

/// Key codes that have a name of their own in the text form.
pub open spec fn is_named_code(c: KeyCode) -> bool {
    ||| c is Backspace
    ||| c is Enter
    ||| c is Left
    ||| c is Right
    ||| c is Up
    ||| c is Down
    ||| c is Home
    ||| c is End
    ||| c is PageUp
    ||| c is PageDown
    ||| c is Tab
    ||| c is BackTab
    ||| c is Delete
    ||| c is Insert
    ||| c is Esc
}

/// Bindings whose text reads back as themselves: a named key or an ASCII
/// character other than `-` without modifiers, or any character with Control
/// or Shift.
pub open spec fn has_readable_text(k: Key) -> bool {
    ||| k.1 == NONE && is_named_code(k.0)
    ||| k.1 == NONE && (k.0 matches KeyCode::Char(c) && (c as u32) < 128 && c != '-')
    ||| (k.1 == CONTROL || k.1 == SHIFT) && k.0 is Char
}

proof fn lemma_named_code_text(c: KeyCode)
    requires
        is_named_code(c),
    ensures
        named_key_code(key_code_text(c)) == Some(c),
        forall|i: int| !is_first_dash(key_code_text(c), i),
{

    reveal_strlit("Backspace");
    reveal_strlit("Enter");
    reveal_strlit("Left");
    reveal_strlit("Right");
    reveal_strlit("Up");
    reveal_strlit("Down");
    reveal_strlit("Home");
    reveal_strlit("End");
    reveal_strlit("PageUp");
    reveal_strlit("PageDown");
    reveal_strlit("Tab");
    reveal_strlit("BackTab");
    reveal_strlit("Delete");
    reveal_strlit("Insert");
    reveal_strlit("Esc");
    let t = key_code_text(c);
    match c {
        KeyCode::Backspace => {

        },
        KeyCode::Enter => {
            assert("Enter"@.len() != "Backspace"@.len());
        },
        KeyCode::Left => {
            assert("Left"@.len() != "Backspace"@.len());
            assert("Left"@.len() != "Enter"@.len());
        },
        KeyCode::Right => {
            assert("Right"@.len() != "Backspace"@.len());
            assert("Right"@[0] != "Enter"@[0]);
            assert("Right"@.len() != "Left"@.len());
        },
        KeyCode::Up => {
            assert("Up"@.len() != "Backspace"@.len());
            assert("Up"@.len() != "Enter"@.len());
            assert("Up"@.len() != "Left"@.len());
            assert("Up"@.len() != "Right"@.len());
        },
        KeyCode::Down => {
            assert("Down"@.len() != "Backspace"@.len());
            assert("Down"@.len() != "Enter"@.len());
            assert("Down"@[0] != "Left"@[0]);
            assert("Down"@.len() != "Right"@.len());
            assert("Down"@.len() != "Up"@.len());
        },
        KeyCode::Home => {
            assert("Home"@.len() != "Backspace"@.len());
            assert("Home"@.len() != "Enter"@.len());
            assert("Home"@[0] != "Left"@[0]);
            assert("Home"@.len() != "Right"@.len());
            assert("Home"@.len() != "Up"@.len());
            assert("Home"@[0] != "Down"@[0]);
        },
        KeyCode::End => {
            assert("End"@.len() != "Backspace"@.len());
            assert("End"@.len() != "Enter"@.len());
            assert("End"@.len() != "Left"@.len());
            assert("End"@.len() != "Right"@.len());
            assert("End"@.len() != "Up"@.len());
            assert("End"@.len() != "Down"@.len());
            assert("End"@.len() != "Home"@.len());
        },
        KeyCode::PageUp => {
            assert("PageUp"@.len() != "Backspace"@.len());
            assert("PageUp"@.len() != "Enter"@.len());
            assert("PageUp"@.len() != "Left"@.len());
            assert("PageUp"@.len() != "Right"@.len());
            assert("PageUp"@.len() != "Up"@.len());
            assert("PageUp"@.len() != "Down"@.len());
            assert("PageUp"@.len() != "Home"@.len());
            assert("PageUp"@.len() != "End"@.len());
        },
        KeyCode::PageDown => {
            assert("PageDown"@.len() != "Backspace"@.len());
            assert("PageDown"@.len() != "Enter"@.len());
            assert("PageDown"@.len() != "Left"@.len());
            assert("PageDown"@.len() != "Right"@.len());
            assert("PageDown"@.len() != "Up"@.len());
            assert("PageDown"@.len() != "Down"@.len());
            assert("PageDown"@.len() != "Home"@.len());
            assert("PageDown"@.len() != "End"@.len());
            assert("PageDown"@.len() != "PageUp"@.len());
        },
        KeyCode::Tab => {
            assert("Tab"@.len() != "Backspace"@.len());
            assert("Tab"@.len() != "Enter"@.len());
            assert("Tab"@.len() != "Left"@.len());
            assert("Tab"@.len() != "Right"@.len());
            assert("Tab"@.len() != "Up"@.len());
            assert("Tab"@.len() != "Down"@.len());
            assert("Tab"@.len() != "Home"@.len());
            assert("Tab"@[0] != "End"@[0]);
            assert("Tab"@.len() != "PageUp"@.len());
            assert("Tab"@.len() != "PageDown"@.len());
        },
        KeyCode::BackTab => {
            assert("BackTab"@.len() != "Backspace"@.len());
            assert("BackTab"@.len() != "Enter"@.len());
            assert("BackTab"@.len() != "Left"@.len());
            assert("BackTab"@.len() != "Right"@.len());
            assert("BackTab"@.len() != "Up"@.len());
            assert("BackTab"@.len() != "Down"@.len());
            assert("BackTab"@.len() != "Home"@.len());
            assert("BackTab"@.len() != "End"@.len());
            assert("BackTab"@.len() != "PageUp"@.len());
            assert("BackTab"@.len() != "PageDown"@.len());
            assert("BackTab"@.len() != "Tab"@.len());
        },
        KeyCode::Delete => {
            assert("Delete"@.len() != "Backspace"@.len());
            assert("Delete"@.len() != "Enter"@.len());
            assert("Delete"@.len() != "Left"@.len());
            assert("Delete"@.len() != "Right"@.len());
            assert("Delete"@.len() != "Up"@.len());
            assert("Delete"@.len() != "Down"@.len());
            assert("Delete"@.len() != "Home"@.len());
            assert("Delete"@.len() != "End"@.len());
            assert("Delete"@[0] != "PageUp"@[0]);
            assert("Delete"@.len() != "PageDown"@.len());
            assert("Delete"@.len() != "Tab"@.len());
            assert("Delete"@.len() != "BackTab"@.len());
        },
        KeyCode::Insert => {
            assert("Insert"@.len() != "Backspace"@.len());
            assert("Insert"@.len() != "Enter"@.len());
            assert("Insert"@.len() != "Left"@.len());
            assert("Insert"@.len() != "Right"@.len());
            assert("Insert"@.len() != "Up"@.len());
            assert("Insert"@.len() != "Down"@.len());
            assert("Insert"@.len() != "Home"@.len());
            assert("Insert"@.len() != "End"@.len());
            assert("Insert"@[0] != "PageUp"@[0]);
            assert("Insert"@.len() != "PageDown"@.len());
            assert("Insert"@.len() != "Tab"@.len());
            assert("Insert"@.len() != "BackTab"@.len());
            assert("Insert"@[0] != "Delete"@[0]);
        },
        KeyCode::Esc => {
            assert("Esc"@.len() != "Backspace"@.len());
            assert("Esc"@.len() != "Enter"@.len());
            assert("Esc"@.len() != "Left"@.len());
            assert("Esc"@.len() != "Right"@.len());
            assert("Esc"@.len() != "Up"@.len());
            assert("Esc"@.len() != "Down"@.len());
            assert("Esc"@.len() != "Home"@.len());
            assert("Esc"@[1] != "End"@[1]);
            assert("Esc"@.len() != "PageUp"@.len());
            assert("Esc"@.len() != "PageDown"@.len());
            assert("Esc"@[0] != "Tab"@[0]);
            assert("Esc"@.len() != "BackTab"@.len());
            assert("Esc"@.len() != "Delete"@.len());
            assert("Esc"@.len() != "Insert"@.len());
        },
        _ => {},
    }
    assert forall|i: int| !is_first_dash(t, i) by {
        if 0 <= i < t.len() {
            assert(t[i] != '-');
        }
    }
}

/// Writing a binding as text and reading the text back gives the same
/// binding, for every binding with a readable text form.
pub proof fn lemma_key_text_reads_back(k: Key)
    requires
        has_readable_text(k),
    ensures
        key_text(k) is Some,
        spec_parse_key(key_text(k)->0) == Ok::<Key, KeyParseError>(k),
{
    reveal_strlit("Ctrl-");
    reveal_strlit("Ctrl");
    reveal_strlit("Shift-");
    reveal_strlit("Shift");
    if k.1 == NONE && is_named_code(k.0) {
        lemma_named_code_text(k.0);
    } else if k.1 == NONE {
        let t = key_code_text(k.0);
        assert(t.len() == 1);
        assert forall|i: int| !is_first_dash(t, i) by {}
        reveal_strlit("Backspace");
        reveal_strlit("Enter");
        reveal_strlit("Left");
        reveal_strlit("Right");
        reveal_strlit("Up");
        reveal_strlit("Down");
        reveal_strlit("Home");
        reveal_strlit("End");
        reveal_strlit("PageUp");
        reveal_strlit("PageDown");
        reveal_strlit("Tab");
        reveal_strlit("BackTab");
        reveal_strlit("Delete");
        reveal_strlit("Insert");
        reveal_strlit("Esc");
        assert(named_key_code(t) is None);
    } else {
        let prefix: Seq<char> = if k.1 == CONTROL { "Ctrl-"@ } else { "Shift-"@ };
        let t = key_text(k)->0;
        assert(t == prefix + key_code_text(k.0));
        let d = prefix.len() - 1;
        assert(is_first_dash(t, d));
        assert forall|i: int| is_first_dash(t, i) implies i == d by {
            if i < d {
                assert(t[i] == prefix[i]);
            } else if i > d {
                assert(t[d] == '-');
            }
        }
        assert(t.subrange(0, d) =~= prefix.subrange(0, d));
        if k.1 == CONTROL {
            assert(t.subrange(0, d) =~= "Ctrl"@);
        } else {
            assert(t.subrange(0, d) =~= "Shift"@);
            assert(t.subrange(0, d) != "Ctrl"@);
        }
        assert(t.subrange(d + 1, t.len() as int) =~= key_code_text(k.0));
    }
}

/// Reading a text as a binding and writing the binding back gives the same
/// text: every text that reads as a binding is that binding's text form.
pub proof fn lemma_read_key_writes_back(s: Seq<char>, k: Key)
    requires
        spec_parse_key(s) == Ok::<Key, KeyParseError>(k),
    ensures
        key_text(k) == Some(s),
{
    reveal_strlit("Ctrl-");
    reveal_strlit("Ctrl");
    reveal_strlit("Shift-");
    reveal_strlit("Shift");
    if exists|i: int| is_first_dash(s, i) {
        let i = choose|i: int| is_first_dash(s, i);
        let modifier = s.subrange(0, i);
        let code = s.subrange(i + 1, s.len() as int);
        assert(s =~= modifier + seq!['-'] + code);
        assert(code =~= seq![code[0]]);
        if modifier == "Ctrl"@ {
            assert("Ctrl-"@ =~= "Ctrl"@ + seq!['-']);
        } else {
            assert("Shift-"@ =~= "Shift"@ + seq!['-']);
        }
    } else {
        match named_key_code(s) {
            Some(_) => {},
            None => {
                assert(s =~= seq![s[0]]);
            },
        }
    }
}
} // verus!
