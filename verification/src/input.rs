//! The bytes that keys and mouse events send to the shell.

use crate::number::{push_decimal, spec_decimal};
use crate::text::push_char;
use vstd::prelude::*;
use vstd::string::StrSliceExecFns;
use vstd::utf8::{encode_scalar, encode_utf8};

verus! {

/// A key of the host keyboard.
#[derive(Clone, Copy, Debug, PartialEq, Eq, Structural)]
pub enum Key {
    Char(char),
    Enter,
    Backspace,
    Tab,
    Esc,
    Up,
    Down,
    Right,
    Left,
    PageUp,
    PageDown,
    Home,
    End,
    /// Any key that the pane has no use for.
    Other,
}

/// A key press: the key, and whether Control was held.
#[derive(Clone, Copy, Debug, PartialEq, Eq, Structural)]
pub struct KeyInput {
    pub key: Key,
    pub ctrl: bool,
}

/// What a mouse report tells of the buttons.
#[derive(Clone, Copy, Debug, PartialEq, Eq, Structural)]
pub enum ReportButton {
    LeftDown,
    RightDown,
    Release,
    WheelUp,
    WheelDown,
}

impl ReportButton {
    /// The button code of the xterm protocol.
    pub open spec fn spec_code(&self) -> u8 {
        match *self {
            ReportButton::LeftDown => 0,
            ReportButton::RightDown => 2,
            ReportButton::Release => 3,
            ReportButton::WheelUp => 64,
            ReportButton::WheelDown => 65,
        }
    }

    /// The button code of the xterm protocol.
    pub fn code(&self) -> (code: u8)
        ensures
            code == self.spec_code(),
    {
        match *self {
            ReportButton::LeftDown => 0,
            ReportButton::RightDown => 2,
            ReportButton::Release => 3,
            ReportButton::WheelUp => 64,
            ReportButton::WheelDown => 65,
        }
    }
}

/// The bytes that a key sends to the shell: a character its UTF-8 encoding,
/// the editing keys their control characters, the arrows their escape
/// sequences; the other keys send nothing.
pub open spec fn spec_key_bytes(key: Key) -> Option<Seq<u8>> {
    match key {
        Key::Char(c) => Some(encode_scalar(c as u32)),
        Key::Enter => Some(seq![0x0Du8]),
        Key::Backspace => Some(seq![0x7Fu8]),
        Key::Tab => Some(seq![0x09u8]),
        Key::Esc => Some(seq![0x1Bu8]),
        Key::Up => Some(seq![0x1Bu8, 0x5Bu8, 0x41u8]),
        Key::Down => Some(seq![0x1Bu8, 0x5Bu8, 0x42u8]),
        Key::Right => Some(seq![0x1Bu8, 0x5Bu8, 0x43u8]),
        Key::Left => Some(seq![0x1Bu8, 0x5Bu8, 0x44u8]),
        _ => None,
    }
}

/// A coordinate of a mouse report: one-based and moved up by 32, held at 255.
pub open spec fn spec_report_coordinate(cell: u16) -> u8 {
    if cell + 33 <= 255 {
        (cell + 33) as u8
    } else {
        255
    }
}

/// The xterm mouse report for `button` at the zero-based cell `(col, row)`:
/// `ESC [ M`, then the button code moved up by 32, then the two coordinates.
pub open spec fn spec_mouse_report(button: ReportButton, col: u16, row: u16) -> Seq<u8> {
    seq![
        0x1Bu8,
        0x5Bu8,
        0x4Du8,
        (button.spec_code() + 32) as u8,
        spec_report_coordinate(col),
        spec_report_coordinate(row),
    ]
}

/// The text of the escape sequence that moves the shell's cursor to the
/// zero-based grid cell `(col, row)`: `ESC [ row+1 ; col+1 H`.
pub open spec fn spec_cursor_escape_text(col: u16, row: usize) -> Seq<char> {
    seq!['\x1b', '['] + spec_decimal((row + 1) as nat) + seq![';'] + spec_decimal(
        (col + 1) as nat,
    ) + seq!['H']
}

/// Encodes one character as UTF-8.
pub fn encode_char(c: char) -> (bytes: Vec<u8>)
    ensures
        bytes@ == encode_scalar(c as u32),
        bytes@ == encode_utf8(seq![c]),
{
    let v: u32 = c as u32;
    let mut bytes: Vec<u8> = Vec::new();
    if v <= 0x7F {
        assert((v & 0x7F) < 256) by (bit_vector);
        bytes.push((v & 0x7F) as u8);
    } else if v <= 0x7FF {
        assert(((v >> 6) & 0x1F) < 256 && (v & 0x3F) < 256) by (bit_vector);
        bytes.push(0xC0 | ((v >> 6) & 0x1F) as u8);
        bytes.push(0x80 | (v & 0x3F) as u8);
    } else if v <= 0xFFFF {
        assert(((v >> 12) & 0x0F) < 256 && ((v >> 6) & 0x3F) < 256 && (v & 0x3F) < 256)
            by (bit_vector);
        bytes.push(0xE0 | ((v >> 12) & 0x0F) as u8);
        bytes.push(0x80 | ((v >> 6) & 0x3F) as u8);
        bytes.push(0x80 | (v & 0x3F) as u8);
    } else {
        assert(((v >> 18) & 0x7) < 256 && ((v >> 12) & 0x3F) < 256 && ((v >> 6) & 0x3F) < 256 && (v
            & 0x3F) < 256) by (bit_vector);
        bytes.push(0xF0 | ((v >> 18) & 0x7) as u8);
        bytes.push(0x80 | ((v >> 12) & 0x3F) as u8);
        bytes.push(0x80 | ((v >> 6) & 0x3F) as u8);
        bytes.push(0x80 | (v & 0x3F) as u8);
    }
    proof {
        assert(bytes@ =~= encode_scalar(v));
        assert(seq![c].drop_first() =~= Seq::<char>::empty());
        assert(encode_utf8(seq![c]) =~= encode_scalar(v) + encode_utf8(Seq::<char>::empty()));
        assert(encode_utf8(seq![c]) =~= encode_scalar(v));
    }
    bytes
}

/// The bytes that a key sends to the shell, if it sends any.
pub fn key_bytes(key: Key) -> (bytes: Option<Vec<u8>>)
    ensures
        bytes is Some == spec_key_bytes(key) is Some,
        bytes matches Some(b) ==> b@ == spec_key_bytes(key)->0,
{
    match key {
        Key::Char(c) => Some(encode_char(c)),
        Key::Enter => Some(vec![0x0Du8]),
        Key::Backspace => Some(vec![0x7Fu8]),
        Key::Tab => Some(vec![0x09u8]),
        Key::Esc => Some(vec![0x1Bu8]),
        Key::Up => Some(vec![0x1Bu8, 0x5Bu8, 0x41u8]),
        Key::Down => Some(vec![0x1Bu8, 0x5Bu8, 0x42u8]),
        Key::Right => Some(vec![0x1Bu8, 0x5Bu8, 0x43u8]),
        Key::Left => Some(vec![0x1Bu8, 0x5Bu8, 0x44u8]),
        _ => None,
    }
}

/// A coordinate of a mouse report.
pub fn report_coordinate(cell: u16) -> (byte: u8)
    ensures
        byte == spec_report_coordinate(cell),
{
    if cell <= 222 {
        (cell + 33) as u8
    } else {
        255
    }
}

/// The xterm mouse report for `button` at the zero-based cell `(col, row)`.
pub fn mouse_report(button: ReportButton, col: u16, row: u16) -> (bytes: Vec<u8>)
    ensures
        bytes@ == spec_mouse_report(button, col, row),
{
    let bytes = vec![
        0x1Bu8,
        0x5Bu8,
        0x4Du8,
        button.code() + 32,
        report_coordinate(col),
        report_coordinate(row),
    ];
    assert(bytes@ =~= spec_mouse_report(button, col, row));
    bytes
}

/// The escape sequence that moves the shell's cursor to the zero-based grid
/// cell `(col, row)`.
pub fn cursor_position_escape(col: u16, row: usize) -> (bytes: Vec<u8>)
    ensures
        bytes@ == encode_utf8(spec_cursor_escape_text(col, row)),
{
    let mut text = String::new();
    push_char(&mut text, '\x1b');
    push_char(&mut text, '[');
    push_decimal(&mut text, row as u128 + 1);
    push_char(&mut text, ';');
    push_decimal(&mut text, col as u128 + 1);
    push_char(&mut text, 'H');
    proof {
        assert(text@ =~= spec_cursor_escape_text(col, row));
    }
    text.as_str().as_bytes_vec()
}

} // verus!
