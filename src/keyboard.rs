//! Scancode set 1 of the PS/2 keyboard and the line the user is typing.
use crate::commands::{names, Command};
use crate::text::push_char;
use vstd::prelude::*;

verus! {

/// The scancode of the Enter key.
pub const ENTER: u8 = 0x1C;

/// The scancode of the Backspace key.
pub const BACKSPACE: u8 = 0x0E;

/// The character a key press stands for: `'#'` for Backspace, `'\n'` for
/// Enter, `'%'` for the left and right arrows, `'|'` for the down arrow.
pub open spec fn key_char(scancode: u8) -> Option<char> {
    match scancode {
        0x02 => Some('1'),
        0x03 => Some('2'),
        0x04 => Some('3'),
        0x05 => Some('4'),
        0x06 => Some('5'),
        0x07 => Some('6'),
        0x08 => Some('7'),
        0x09 => Some('8'),
        0x0A => Some('9'),
        0x0B => Some('0'),
        0x0C => Some('-'),
        0x0D => Some('='),
        0x0E => Some('#'),
        0x0F => Some('\t'),
        0x10 => Some('q'),
        0x11 => Some('w'),
        0x12 => Some('e'),
        0x13 => Some('r'),
        0x14 => Some('t'),
        0x15 => Some('y'),
        0x16 => Some('u'),
        0x17 => Some('i'),
        0x18 => Some('o'),
        0x19 => Some('p'),
        0x1A => Some('['),
        0x1B => Some(']'),
        0x1C => Some('\n'),
        0x1E => Some('a'),
        0x1F => Some('s'),
        0x20 => Some('d'),
        0x21 => Some('f'),
        0x22 => Some('g'),
        0x23 => Some('h'),
        0x24 => Some('j'),
        0x25 => Some('k'),
        0x26 => Some('l'),
        0x27 => Some(';'),
        0x28 => Some('\''),
        0x2B => Some('\\'),
        0x2C => Some('z'),
        0x2D => Some('x'),
        0x2E => Some('c'),
        0x2F => Some('v'),
        0x30 => Some('b'),
        0x31 => Some('n'),
        0x32 => Some('m'),
        0x33 => Some(','),
        0x34 => Some('.'),
        0x35 => Some('/'),
        0x37 => Some('*'),
        0x39 => Some(' '),
        0x4B | 0x4D => Some('%'),
        0x50 => Some('|'),
        _ => None,
    }
}

/// The character a key press stands for, if any.
pub fn get_scancode(scancode: u8) -> (r: Option<char>)
    ensures
        r == key_char(scancode),
{
    match scancode {
        0x02 => Some('1'),
        0x03 => Some('2'),
        0x04 => Some('3'),
        0x05 => Some('4'),
        0x06 => Some('5'),
        0x07 => Some('6'),
        0x08 => Some('7'),
        0x09 => Some('8'),
        0x0A => Some('9'),
        0x0B => Some('0'),
        0x0C => Some('-'),
        0x0D => Some('='),
        BACKSPACE => Some('#'),
        0x0F => Some('\t'),
        0x10 => Some('q'),
        0x11 => Some('w'),
        0x12 => Some('e'),
        0x13 => Some('r'),
        0x14 => Some('t'),
        0x15 => Some('y'),
        0x16 => Some('u'),
        0x17 => Some('i'),
        0x18 => Some('o'),
        0x19 => Some('p'),
        0x1A => Some('['),
        0x1B => Some(']'),
        ENTER => Some('\n'),
        0x1E => Some('a'),
        0x1F => Some('s'),
        0x20 => Some('d'),
        0x21 => Some('f'),
        0x22 => Some('g'),
        0x23 => Some('h'),
        0x24 => Some('j'),
        0x25 => Some('k'),
        0x26 => Some('l'),
        0x27 => Some(';'),
        0x28 => Some('\''),
        0x2B => Some('\\'),
        0x2C => Some('z'),
        0x2D => Some('x'),
        0x2E => Some('c'),
        0x2F => Some('v'),
        0x30 => Some('b'),
        0x31 => Some('n'),
        0x32 => Some('m'),
        0x33 => Some(','),
        0x34 => Some('.'),
        0x35 => Some('/'),
        0x37 => Some('*'),
        0x39 => Some(' '),
        0x4B | 0x4D => Some('%'),
        0x50 => Some('|'),
        _ => None,
    }
}

/// What the shell does with a key press.
#[derive(Debug)]
pub enum KeyAction {
    /// Enter: run the command of the line, which is now empty.
    Submit(Command),
    /// Backspace: the last character of the line is gone; erase it on screen.
    Erase,
    /// A character was added to the line; show it.
    Echo(char),
    /// The key stands for no character.
    Ignore,
}

/// Relies on `String::pop`: it removes and returns the last character.
#[verifier::external_body]
fn pop_char(s: &mut String) -> (r: Option<char>)
    ensures
        old(s)@.len() == 0 ==> r is None && final(s)@ == old(s)@,
        old(s)@.len() > 0 ==> r == Some(old(s)@.last()) && final(s)@ == old(s)@.drop_last(),
{
    s.pop()
}

/// Applies a key press to the line being typed.
pub fn handle_scancode(line: &mut String, scancode: u8) -> (r: KeyAction)
    ensures
        match key_char(scancode) {
            Some(c) => if c == '\n' {
                &&& r matches KeyAction::Submit(cmd) && names(old(line)@, cmd)
                &&& final(line)@ == Seq::<char>::empty()
            } else if c == '#' {
                &&& r is Erase
                &&& final(line)@ == if old(line)@.len() == 0 {
                    old(line)@
                } else {
                    old(line)@.drop_last()
                }
            } else {
                &&& r == KeyAction::Echo(c)
                &&& final(line)@ == old(line)@.push(c)
            },
            None => r is Ignore && final(line)@ == old(line)@,
        },
{
    match get_scancode(scancode) {
        Some('\n') => {
            let mut text = String::new();
            core::mem::swap(line, &mut text);
            KeyAction::Submit(Command::parse(text.as_str()))
        },
        Some('#') => {
            pop_char(line);
            KeyAction::Erase
        },
        Some(c) => {
            push_char(line, c);
            KeyAction::Echo(c)
        },
        None => KeyAction::Ignore,
    }
}

} // verus!
