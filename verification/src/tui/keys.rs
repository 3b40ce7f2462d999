//! Key events, and the bytes that a terminal program reads for them.
use vstd::prelude::*;
use vstd::utf8::*;

verus! {

/// Which key was pressed.
#[derive(Clone, Copy, Debug, PartialEq, Eq, Structural)]
pub enum KeyCode {
    Char(char),
    Enter,
    Backspace,
    Esc,
    Tab,
    BackTab,
    Up,
    Down,
    Right,
    Left,
    Home,
    End,
    PageUp,
    PageDown,
    Insert,
    Delete,
    /// The function key with this number.
    F(u8),
    /// Any key that has no meaning here.
    Other,
}

/// The modifier keys that were held.
#[derive(Clone, Copy, Debug, PartialEq, Eq, Structural)]
pub struct Modifiers {
    pub shift: bool,
    pub control: bool,
    pub alt: bool,
    pub super_key: bool,
    pub hyper: bool,
    pub meta: bool,
}

/// Whether the key went down, was held, or went up.
#[derive(Clone, Copy, Debug, PartialEq, Eq, Structural)]
pub enum KeyKind {
    Press,
    Repeat,
    Release,
}

/// A key event.
#[derive(Clone, Copy, Debug, PartialEq, Eq, Structural)]
pub struct KeyEvent {
    pub code: KeyCode,
    pub modifiers: Modifiers,
    pub kind: KeyKind,
}

/// The escape byte.
pub const ESC: u8 = 0x1b;

impl Modifiers {
    /// No modifier key.
    pub open spec fn none() -> Modifiers {
        Modifiers {
            shift: false,
            control: false,
            alt: false,
            super_key: false,
            hyper: false,
            meta: false,
        }
    }

    /// The control key and no other modifier key.
    pub open spec fn control_only() -> Modifiers {
        Modifiers {
            shift: false,
            control: true,
            alt: false,
            super_key: false,
            hyper: false,
            meta: false,
        }
    }

    /// Whether no modifier key was held.
    pub fn is_none(&self) -> (r: bool)
        ensures
            r == (*self == Modifiers::none()),
    {
        !self.shift && !self.control && !self.alt && !self.super_key && !self.hyper && !self.meta
    }

    /// Whether the control key was held and no other modifier key.
    pub fn is_control_only(&self) -> (r: bool)
        ensures
            r == (*self == Modifiers::control_only()),
    {
        !self.shift && self.control && !self.alt && !self.super_key && !self.hyper && !self.meta
    }
}

/// The control code of a character: its low byte, in lower case if it is an ASCII letter,
/// counted from one at `a`, modulo 256.
pub open spec fn control_code(c: char) -> int {
    let code = if 'A' <= c <= 'Z' {
        c as int + 32
    } else {
        c as int
    };
    (code % 256 - 'a' as int + 1) % 256
}

/// The bytes for the function key with the number `n`.
pub open spec fn function_key_bytes(n: u8) -> Seq<u8> {
    if n == 1 {
        seq![ESC, 'O' as u8, 'P' as u8]
    } else if n == 2 {
        seq![ESC, 'O' as u8, 'Q' as u8]
    } else if n == 3 {
        seq![ESC, 'O' as u8, 'R' as u8]
    } else if n == 4 {
        seq![ESC, 'O' as u8, 'S' as u8]
    } else if n == 5 {
        seq![ESC, '[' as u8, '1' as u8, '5' as u8, '~' as u8]
    } else if n == 6 {
        seq![ESC, '[' as u8, '1' as u8, '7' as u8, '~' as u8]
    } else if n == 7 {
        seq![ESC, '[' as u8, '1' as u8, '8' as u8, '~' as u8]
    } else if n == 8 {
        seq![ESC, '[' as u8, '1' as u8, '9' as u8, '~' as u8]
    } else if n == 9 {
        seq![ESC, '[' as u8, '2' as u8, '0' as u8, '~' as u8]
    } else if n == 10 {
        seq![ESC, '[' as u8, '2' as u8, '1' as u8, '~' as u8]
    } else if n == 11 {
        seq![ESC, '[' as u8, '2' as u8, '3' as u8, '~' as u8]
    } else if n == 12 {
        seq![ESC, '[' as u8, '2' as u8, '4' as u8, '~' as u8]
    } else {
        seq![]
    }
}

/// The bytes for the character `c` typed with `modifiers`.
pub open spec fn char_bytes(c: char, modifiers: Modifiers) -> Seq<u8> {
    if modifiers.control && control_code(c) <= 26 {
        seq![control_code(c) as u8]
    } else if modifiers.alt {
        seq![ESC] + encode_utf8(seq![c])
    } else {
        encode_utf8(seq![c])
    }
}

/// The bytes that a terminal program reads for a key.
pub open spec fn key_bytes(code: KeyCode, modifiers: Modifiers) -> Seq<u8> {
    match code {
        KeyCode::Char(c) => char_bytes(c, modifiers),
        KeyCode::Enter => seq!['\r' as u8],
        KeyCode::Backspace => seq![0x7fu8],
        KeyCode::Esc => seq![ESC],
        KeyCode::Tab => seq!['\t' as u8],
        KeyCode::BackTab => seq![ESC, '[' as u8, 'Z' as u8],
        KeyCode::Up => seq![ESC, '[' as u8, 'A' as u8],
        KeyCode::Down => seq![ESC, '[' as u8, 'B' as u8],
        KeyCode::Right => seq![ESC, '[' as u8, 'C' as u8],
        KeyCode::Left => seq![ESC, '[' as u8, 'D' as u8],
        KeyCode::Home => seq![ESC, '[' as u8, 'H' as u8],
        KeyCode::End => seq![ESC, '[' as u8, 'F' as u8],
        KeyCode::PageUp => seq![ESC, '[' as u8, '5' as u8, '~' as u8],
        KeyCode::PageDown => seq![ESC, '[' as u8, '6' as u8, '~' as u8],
        KeyCode::Insert => seq![ESC, '[' as u8, '2' as u8, '~' as u8],
        KeyCode::Delete => seq![ESC, '[' as u8, '3' as u8, '~' as u8],
        KeyCode::F(n) => function_key_bytes(n),
        KeyCode::Other => seq![],
    }
}

/// The UTF-8 encoding of a character.
fn encode_char(c: char) -> (r: Vec<u8>)
    ensures
        r@ == encode_utf8(seq![c]),
{
    let v: u32 = c as u32;
    let mut r: Vec<u8> = Vec::new();
    if v <= 0x7f {
        r.push((v & 0x7F) as u8);
    } else if v <= 0x7ff {
        r.push(0xC0 | ((v >> 6) & 0x1F) as u8);
        r.push(0x80 | (v & 0x3F) as u8);
    } else if v <= 0xffff {
        r.push(0xE0 | ((v >> 12) & 0x0F) as u8);
        r.push(0x80 | ((v >> 6) & 0x3F) as u8);
        r.push(0x80 | (v & 0x3F) as u8);
    } else {
        r.push(0xF0 | ((v >> 18) & 0x7) as u8);
        r.push(0x80 | ((v >> 12) & 0x3F) as u8);
        r.push(0x80 | ((v >> 6) & 0x3F) as u8);
        r.push(0x80 | (v & 0x3F) as u8);
    }
    proof {
        char_is_scalar(c);
        assert(seq![c].drop_first() =~= Seq::<char>::empty());
        assert(encode_utf8(Seq::<char>::empty()) =~= Seq::<u8>::empty());
        assert(r@ =~= encode_scalar(v));
        assert(encode_utf8(seq![c]) =~= encode_scalar(v));
    }
    r
}

/// The bytes for the character `c` typed with `modifiers`.
fn encode_typed(c: char, modifiers: Modifiers) -> (r: Vec<u8>)
    ensures
        r@ == char_bytes(c, modifiers),
{
    if modifiers.control {
        let code: u32 = if 'A' <= c && c <= 'Z' {
            c as u32 + 32
        } else {
            c as u32
        };
        let low: u8 = (code % 256) as u8;
        let byte: u8 = low.wrapping_sub('a' as u8).wrapping_add(1);
        assert(byte == control_code(c));
        if byte <= 26 {
            return vec![byte];
        }
    }
    if modifiers.alt {
        let mut bytes: Vec<u8> = vec![ESC];
        let mut rest: Vec<u8> = encode_char(c);
        bytes.append(&mut rest);
        return bytes;
    }
    encode_char(c)
}

/// The bytes for the function key with the number `n`.
fn encode_function_key(n: u8) -> (r: Vec<u8>)
    ensures
        r@ == function_key_bytes(n),
{
    match n {
        1 => vec![ESC, 'O' as u8, 'P' as u8],
        2 => vec![ESC, 'O' as u8, 'Q' as u8],
        3 => vec![ESC, 'O' as u8, 'R' as u8],
        4 => vec![ESC, 'O' as u8, 'S' as u8],
        5 => vec![ESC, '[' as u8, '1' as u8, '5' as u8, '~' as u8],
        6 => vec![ESC, '[' as u8, '1' as u8, '7' as u8, '~' as u8],
        7 => vec![ESC, '[' as u8, '1' as u8, '8' as u8, '~' as u8],
        8 => vec![ESC, '[' as u8, '1' as u8, '9' as u8, '~' as u8],
        9 => vec![ESC, '[' as u8, '2' as u8, '0' as u8, '~' as u8],
        10 => vec![ESC, '[' as u8, '2' as u8, '1' as u8, '~' as u8],
        11 => vec![ESC, '[' as u8, '2' as u8, '3' as u8, '~' as u8],
        12 => vec![ESC, '[' as u8, '2' as u8, '4' as u8, '~' as u8],
        _ => vec![],
    }
}

/// The bytes to hand to the program behind a pseudo terminal for a key event.
pub fn key_event_to_bytes(key: &KeyEvent) -> (r: Vec<u8>)
    ensures
        r@ == key_bytes(key.code, key.modifiers),
{
    match key.code {
        KeyCode::Char(c) => encode_typed(c, key.modifiers),
        KeyCode::Enter => vec!['\r' as u8],
        KeyCode::Backspace => vec![0x7f],
        KeyCode::Esc => vec![ESC],
        KeyCode::Tab => vec!['\t' as u8],
        KeyCode::BackTab => vec![ESC, '[' as u8, 'Z' as u8],
        KeyCode::Up => vec![ESC, '[' as u8, 'A' as u8],
        KeyCode::Down => vec![ESC, '[' as u8, 'B' as u8],
        KeyCode::Right => vec![ESC, '[' as u8, 'C' as u8],
        KeyCode::Left => vec![ESC, '[' as u8, 'D' as u8],
        KeyCode::Home => vec![ESC, '[' as u8, 'H' as u8],
        KeyCode::End => vec![ESC, '[' as u8, 'F' as u8],
        KeyCode::PageUp => vec![ESC, '[' as u8, '5' as u8, '~' as u8],
        KeyCode::PageDown => vec![ESC, '[' as u8, '6' as u8, '~' as u8],
        KeyCode::Insert => vec![ESC, '[' as u8, '2' as u8, '~' as u8],
        KeyCode::Delete => vec![ESC, '[' as u8, '3' as u8, '~' as u8],
        KeyCode::F(n) => encode_function_key(n),
        KeyCode::Other => vec![],
    }
}

/// A character typed without control or alt reaches the program as its own UTF-8 encoding, from
/// which it can be read back.
pub proof fn law_typed_text_is_kept(c: char, modifiers: Modifiers)
    requires
        !modifiers.control,
        !modifiers.alt,
    ensures
        valid_utf8(key_bytes(KeyCode::Char(c), modifiers)),
        decode_utf8(key_bytes(KeyCode::Char(c), modifiers)) == seq![c],
{
    encode_utf8_valid_utf8(seq![c]);
    encode_utf8_decode_utf8(seq![c]);
}

/// Control with a letter, in either case, is the letter's place in the alphabet.
pub proof fn law_control_letters(c: char, modifiers: Modifiers)
    requires
        modifiers.control,
        'a' <= c <= 'z' || 'A' <= c <= 'Z',
    ensures
        key_bytes(KeyCode::Char(c), modifiers) == seq![
            (if 'a' <= c {
                c as int - 'a' as int + 1
            } else {
                c as int - 'A' as int + 1
            }) as u8,
        ],
{
}

/// Only control and alt change what a character sends, and no modifier key changes what another key
/// sends.
pub proof fn law_modifiers_that_count(code: KeyCode, a: Modifiers, b: Modifiers)
    requires
        code is Char ==> a.control == b.control && a.alt == b.alt,
    ensures
        key_bytes(code, a) == key_bytes(code, b),
{
}

/// Alt puts an escape in front of what the character sends by itself, unless control makes it a
/// control code.
pub proof fn law_alt_escapes(c: char, modifiers: Modifiers)
    requires
        modifiers.alt,
    ensures
        !modifiers.control ==> key_bytes(KeyCode::Char(c), modifiers) == seq![ESC] + encode_utf8(
            seq![c],
        ),
        modifiers.control ==> key_bytes(KeyCode::Char(c), modifiers) == seq![ESC] + encode_utf8(
            seq![c],
        ) || (key_bytes(KeyCode::Char(c), modifiers).len() == 1 && key_bytes(
            KeyCode::Char(c),
            modifiers,
        )[0] <= 26),
{
}

/// With control, the characters whose low byte in lower case lies from the backquote to `z` send
/// their place in that row, with alt as without. All others send what they send without control.
pub proof fn law_control_codes(c: char, modifiers: Modifiers)
    requires
        modifiers.control,
    ensures
        ({
            let lower: int = if 'A' <= c <= 'Z' {
                c as int + 32
            } else {
                c as int
            };
            let low = lower % 256;
            let sent = key_bytes(KeyCode::Char(c), modifiers);
            if 96 <= low <= 122 {
                sent.len() == 1 && sent[0] == low - 96
            } else {
                sent == key_bytes(KeyCode::Char(c), Modifiers { control: false, ..modifiers })
            }
        }),
{
}

/// Every key but a character sends an escape sequence or one control byte. Function keys beyond the
/// twelfth, the one numbered zero, and keys without a meaning send nothing.
pub proof fn law_named_keys(code: KeyCode, modifiers: Modifiers)
    requires
        !(code is Char),
    ensures
        ({
            let bytes = key_bytes(code, modifiers);
            let silent = code is Other || (code matches KeyCode::F(n) && (n == 0 || n > 12));
            &&& silent <==> bytes.len() == 0
            &&& bytes.len() == 1 ==> bytes[0] < 32 || bytes[0] == 127
            &&& bytes.len() > 1 ==> bytes[0] == ESC && bytes.len() >= 3
        }),
{
}

} // verus!
