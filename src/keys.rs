//! Key codes of the windowing system and the characters they stand for.
use vstd::prelude::*;

use winit::event::VirtualKeyCode;

verus! {

/// winit's `VirtualKeyCode`, a plain enumeration whose variants are read as
/// they are.
#[verifier::external_type_specification]
pub struct ExVirtualKeyCode(VirtualKeyCode);

/// Whether `c` is a control character (general category Cc).
pub open spec fn is_control_spec(c: char) -> bool {
    (c as u32) <= 0x1f || (0x7f <= (c as u32) && (c as u32) <= 0x9f)
}

/// Whether `c` is a control character (general category Cc).
#[verifier::when_used_as_spec(is_control_spec)]
pub fn is_control(c: char) -> (r: bool)
    ensures
        r == is_control_spec(c),
{
    (c as u32) <= 0x1f || (0x7f <= (c as u32) && (c as u32) <= 0x9f)
}

/// The character a key produces without modifiers, for the keys that a
/// control sequence (such as Ctrl+C) can come from.
pub open spec fn key_code_char(key: VirtualKeyCode) -> Option<char> {
    match key {
        VirtualKeyCode::Key1 => Some('1'),
        VirtualKeyCode::Key2 => Some('2'),
        VirtualKeyCode::Key3 => Some('3'),
        VirtualKeyCode::Key4 => Some('4'),
        VirtualKeyCode::Key5 => Some('5'),
        VirtualKeyCode::Key6 => Some('6'),
        VirtualKeyCode::Key7 => Some('7'),
        VirtualKeyCode::Key8 => Some('8'),
        VirtualKeyCode::Key9 => Some('9'),
        VirtualKeyCode::Key0 => Some('0'),
        VirtualKeyCode::A => Some('a'),
        VirtualKeyCode::B => Some('b'),
        VirtualKeyCode::C => Some('c'),
        VirtualKeyCode::D => Some('d'),
        VirtualKeyCode::E => Some('e'),
        VirtualKeyCode::F => Some('f'),
        VirtualKeyCode::G => Some('g'),
        VirtualKeyCode::H => Some('h'),
        VirtualKeyCode::I => Some('i'),
        VirtualKeyCode::J => Some('j'),
        VirtualKeyCode::K => Some('k'),
        VirtualKeyCode::L => Some('l'),
        VirtualKeyCode::M => Some('m'),
        VirtualKeyCode::N => Some('n'),
        VirtualKeyCode::O => Some('o'),
        VirtualKeyCode::P => Some('p'),
        VirtualKeyCode::Q => Some('q'),
        VirtualKeyCode::R => Some('r'),
        VirtualKeyCode::S => Some('s'),
        VirtualKeyCode::T => Some('t'),
        VirtualKeyCode::U => Some('u'),
        VirtualKeyCode::V => Some('v'),
        VirtualKeyCode::W => Some('w'),
        VirtualKeyCode::X => Some('x'),
        VirtualKeyCode::Y => Some('y'),
        VirtualKeyCode::Z => Some('z'),
        VirtualKeyCode::Space => Some(' '),
        VirtualKeyCode::Caret => Some('^'),
        VirtualKeyCode::Apostrophe => Some('\''),
        VirtualKeyCode::Asterisk => Some('*'),
        VirtualKeyCode::Backslash => Some('\\'),
        VirtualKeyCode::Colon => Some(':'),
        VirtualKeyCode::Comma => Some(','),
        VirtualKeyCode::Equals => Some('='),
        VirtualKeyCode::Grave => Some('`'),
        VirtualKeyCode::Minus => Some('-'),
        VirtualKeyCode::Period => Some('.'),
        VirtualKeyCode::Plus => Some('+'),
        VirtualKeyCode::Semicolon => Some(';'),
        VirtualKeyCode::Slash => Some('/'),
        VirtualKeyCode::Tab => Some('\t'),
        _ => None,
    }
}

/// Maps the last pressed key back to its character, for when the windowing
/// system reports a control character instead (as for Ctrl+some key).
pub fn winit_key_code_to_string(virtual_keycode: VirtualKeyCode) -> (r: Option<char>)
    ensures
        r == key_code_char(virtual_keycode),
{
    Some(
        match virtual_keycode {
            VirtualKeyCode::Key1 => '1',
            VirtualKeyCode::Key2 => '2',
            VirtualKeyCode::Key3 => '3',
            VirtualKeyCode::Key4 => '4',
            VirtualKeyCode::Key5 => '5',
            VirtualKeyCode::Key6 => '6',
            VirtualKeyCode::Key7 => '7',
            VirtualKeyCode::Key8 => '8',
            VirtualKeyCode::Key9 => '9',
            VirtualKeyCode::Key0 => '0',
            VirtualKeyCode::A => 'a',
            VirtualKeyCode::B => 'b',
            VirtualKeyCode::C => 'c',
            VirtualKeyCode::D => 'd',
            VirtualKeyCode::E => 'e',
            VirtualKeyCode::F => 'f',
            VirtualKeyCode::G => 'g',
            VirtualKeyCode::H => 'h',
            VirtualKeyCode::I => 'i',
            VirtualKeyCode::J => 'j',
            VirtualKeyCode::K => 'k',
            VirtualKeyCode::L => 'l',
            VirtualKeyCode::M => 'm',
            VirtualKeyCode::N => 'n',
            VirtualKeyCode::O => 'o',
            VirtualKeyCode::P => 'p',
            VirtualKeyCode::Q => 'q',
            VirtualKeyCode::R => 'r',
            VirtualKeyCode::S => 's',
            VirtualKeyCode::T => 't',
            VirtualKeyCode::U => 'u',
            VirtualKeyCode::V => 'v',
            VirtualKeyCode::W => 'w',
            VirtualKeyCode::X => 'x',
            VirtualKeyCode::Y => 'y',
            VirtualKeyCode::Z => 'z',
            VirtualKeyCode::Space => ' ',
            VirtualKeyCode::Caret => '^',
            VirtualKeyCode::Apostrophe => '\'',
            VirtualKeyCode::Asterisk => '*',
            VirtualKeyCode::Backslash => '\\',
            VirtualKeyCode::Colon => ':',
            VirtualKeyCode::Comma => ',',
            VirtualKeyCode::Equals => '=',
            VirtualKeyCode::Grave => '`',
            VirtualKeyCode::Minus => '-',
            VirtualKeyCode::Period => '.',
            VirtualKeyCode::Plus => '+',
            VirtualKeyCode::Semicolon => ';',
            VirtualKeyCode::Slash => '/',
            VirtualKeyCode::Tab => '\t',
            _ => {
                return None;
            },
        },
    )
}

} // verus!
