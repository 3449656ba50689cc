//! Characters and the keys that type them, and typing a text as key steps.

use vstd::prelude::*;
use crate::keys::KeybdKey;

verus! {

/// The character that a key types without shift, for keys that type one.
pub open spec fn key_char(k: KeybdKey) -> Option<char> {
    match k {
        KeybdKey::AKey => Some('a'),
        KeybdKey::BKey => Some('b'),
        KeybdKey::CKey => Some('c'),
        KeybdKey::DKey => Some('d'),
        KeybdKey::EKey => Some('e'),
        KeybdKey::FKey => Some('f'),
        KeybdKey::GKey => Some('g'),
        KeybdKey::HKey => Some('h'),
        KeybdKey::IKey => Some('i'),
        KeybdKey::JKey => Some('j'),
        KeybdKey::KKey => Some('k'),
        KeybdKey::LKey => Some('l'),
        KeybdKey::MKey => Some('m'),
        KeybdKey::NKey => Some('n'),
        KeybdKey::OKey => Some('o'),
        KeybdKey::PKey => Some('p'),
        KeybdKey::QKey => Some('q'),
        KeybdKey::RKey => Some('r'),
        KeybdKey::SKey => Some('s'),
        KeybdKey::TKey => Some('t'),
        KeybdKey::UKey => Some('u'),
        KeybdKey::VKey => Some('v'),
        KeybdKey::WKey => Some('w'),
        KeybdKey::XKey => Some('x'),
        KeybdKey::YKey => Some('y'),
        KeybdKey::ZKey => Some('z'),
        KeybdKey::Numpad0Key => Some('0'),
        KeybdKey::Numpad1Key => Some('1'),
        KeybdKey::Numpad2Key => Some('2'),
        KeybdKey::Numpad3Key => Some('3'),
        KeybdKey::Numpad4Key => Some('4'),
        KeybdKey::Numpad5Key => Some('5'),
        KeybdKey::Numpad6Key => Some('6'),
        KeybdKey::Numpad7Key => Some('7'),
        KeybdKey::Numpad8Key => Some('8'),
        KeybdKey::Numpad9Key => Some('9'),
        KeybdKey::Numrow0Key => Some('0'),
        KeybdKey::Numrow1Key => Some('1'),
        KeybdKey::Numrow2Key => Some('2'),
        KeybdKey::Numrow3Key => Some('3'),
        KeybdKey::Numrow4Key => Some('4'),
        KeybdKey::Numrow5Key => Some('5'),
        KeybdKey::Numrow6Key => Some('6'),
        KeybdKey::Numrow7Key => Some('7'),
        KeybdKey::Numrow8Key => Some('8'),
        KeybdKey::Numrow9Key => Some('9'),
        KeybdKey::BackslashKey => Some('\\'),
        KeybdKey::SlashKey => Some('/'),
        KeybdKey::CommaKey => Some(','),
        KeybdKey::PeriodKey => Some('.'),
        KeybdKey::MinusKey => Some('-'),
        KeybdKey::QuoteKey => Some('"'),
        KeybdKey::SemicolonKey => Some(';'),
        KeybdKey::LBracketKey => Some('['),
        KeybdKey::RBracketKey => Some(']'),
        KeybdKey::EqualKey => Some('='),
        _ => None,
    }
}

/// The character that a key types without shift, for keys that type one.
pub fn from_keybd_key(k: KeybdKey) -> (r: Option<char>)
    ensures
        r == key_char(k),
{
    match k {
        KeybdKey::AKey => Some('a'),
        KeybdKey::BKey => Some('b'),
        KeybdKey::CKey => Some('c'),
        KeybdKey::DKey => Some('d'),
        KeybdKey::EKey => Some('e'),
        KeybdKey::FKey => Some('f'),
        KeybdKey::GKey => Some('g'),
        KeybdKey::HKey => Some('h'),
        KeybdKey::IKey => Some('i'),
        KeybdKey::JKey => Some('j'),
        KeybdKey::KKey => Some('k'),
        KeybdKey::LKey => Some('l'),
        KeybdKey::MKey => Some('m'),
        KeybdKey::NKey => Some('n'),
        KeybdKey::OKey => Some('o'),
        KeybdKey::PKey => Some('p'),
        KeybdKey::QKey => Some('q'),
        KeybdKey::RKey => Some('r'),
        KeybdKey::SKey => Some('s'),
        KeybdKey::TKey => Some('t'),
        KeybdKey::UKey => Some('u'),
        KeybdKey::VKey => Some('v'),
        KeybdKey::WKey => Some('w'),
        KeybdKey::XKey => Some('x'),
        KeybdKey::YKey => Some('y'),
        KeybdKey::ZKey => Some('z'),
        KeybdKey::Numpad0Key => Some('0'),
        KeybdKey::Numpad1Key => Some('1'),
        KeybdKey::Numpad2Key => Some('2'),
        KeybdKey::Numpad3Key => Some('3'),
        KeybdKey::Numpad4Key => Some('4'),
        KeybdKey::Numpad5Key => Some('5'),
        KeybdKey::Numpad6Key => Some('6'),
        KeybdKey::Numpad7Key => Some('7'),
        KeybdKey::Numpad8Key => Some('8'),
        KeybdKey::Numpad9Key => Some('9'),
        KeybdKey::Numrow0Key => Some('0'),
        KeybdKey::Numrow1Key => Some('1'),
        KeybdKey::Numrow2Key => Some('2'),
        KeybdKey::Numrow3Key => Some('3'),
        KeybdKey::Numrow4Key => Some('4'),
        KeybdKey::Numrow5Key => Some('5'),
        KeybdKey::Numrow6Key => Some('6'),
        KeybdKey::Numrow7Key => Some('7'),
        KeybdKey::Numrow8Key => Some('8'),
        KeybdKey::Numrow9Key => Some('9'),
        KeybdKey::BackslashKey => Some('\\'),
        KeybdKey::SlashKey => Some('/'),
        KeybdKey::CommaKey => Some(','),
        KeybdKey::PeriodKey => Some('.'),
        KeybdKey::MinusKey => Some('-'),
        KeybdKey::QuoteKey => Some('"'),
        KeybdKey::SemicolonKey => Some(';'),
        KeybdKey::LBracketKey => Some('['),
        KeybdKey::RBracketKey => Some(']'),
        KeybdKey::EqualKey => Some('='),
        _ => None,
    }
}

/// The key that types a character, with or without shift.
pub open spec fn char_key(c: char) -> Option<KeybdKey> {
    match c {
        ' ' => Some(KeybdKey::SpaceKey),
        'A' | 'a' => Some(KeybdKey::AKey),
        'B' | 'b' => Some(KeybdKey::BKey),
        'C' | 'c' => Some(KeybdKey::CKey),
        'D' | 'd' => Some(KeybdKey::DKey),
        'E' | 'e' => Some(KeybdKey::EKey),
        'F' | 'f' => Some(KeybdKey::FKey),
        'G' | 'g' => Some(KeybdKey::GKey),
        'H' | 'h' => Some(KeybdKey::HKey),
        'I' | 'i' => Some(KeybdKey::IKey),
        'J' | 'j' => Some(KeybdKey::JKey),
        'K' | 'k' => Some(KeybdKey::KKey),
        'L' | 'l' => Some(KeybdKey::LKey),
        'M' | 'm' => Some(KeybdKey::MKey),
        'N' | 'n' => Some(KeybdKey::NKey),
        'O' | 'o' => Some(KeybdKey::OKey),
        'P' | 'p' => Some(KeybdKey::PKey),
        'Q' | 'q' => Some(KeybdKey::QKey),
        'R' | 'r' => Some(KeybdKey::RKey),
        'S' | 's' => Some(KeybdKey::SKey),
        'T' | 't' => Some(KeybdKey::TKey),
        'U' | 'u' => Some(KeybdKey::UKey),
        'V' | 'v' => Some(KeybdKey::VKey),
        'W' | 'w' => Some(KeybdKey::WKey),
        'X' | 'x' => Some(KeybdKey::XKey),
        'Y' | 'y' => Some(KeybdKey::YKey),
        'Z' | 'z' => Some(KeybdKey::ZKey),
        '0' | ')' => Some(KeybdKey::Numrow0Key),
        '1' | '!' => Some(KeybdKey::Numrow1Key),
        '2' | '@' => Some(KeybdKey::Numrow2Key),
        '3' | '#' => Some(KeybdKey::Numrow3Key),
        '4' | '$' => Some(KeybdKey::Numrow4Key),
        '5' | '%' => Some(KeybdKey::Numrow5Key),
        '6' | '^' => Some(KeybdKey::Numrow6Key),
        '7' | '&' => Some(KeybdKey::Numrow7Key),
        '8' | '*' => Some(KeybdKey::Numrow8Key),
        '9' | '(' => Some(KeybdKey::Numrow9Key),
        '`' | '~' => Some(KeybdKey::BackquoteKey),
        '/' | '?' => Some(KeybdKey::SlashKey),
        ',' | '<' => Some(KeybdKey::CommaKey),
        '.' | '>' => Some(KeybdKey::PeriodKey),
        '-' | '_' => Some(KeybdKey::MinusKey),
        ';' | ':' => Some(KeybdKey::SemicolonKey),
        '[' | '{' => Some(KeybdKey::LBracketKey),
        ']' | '}' => Some(KeybdKey::RBracketKey),
        '=' | '+' => Some(KeybdKey::EqualKey),
        '\\' | '|' => Some(KeybdKey::BackslashKey),
        '\'' | '"' => Some(KeybdKey::QuoteKey),
        _ => None,
    }
}

/// The key that types a character, with or without shift.
pub fn get_keybd_key(c: char) -> (r: Option<KeybdKey>)
    ensures
        r == char_key(c),
{
    match c {
        ' ' => Some(KeybdKey::SpaceKey),
        'A' | 'a' => Some(KeybdKey::AKey),
        'B' | 'b' => Some(KeybdKey::BKey),
        'C' | 'c' => Some(KeybdKey::CKey),
        'D' | 'd' => Some(KeybdKey::DKey),
        'E' | 'e' => Some(KeybdKey::EKey),
        'F' | 'f' => Some(KeybdKey::FKey),
        'G' | 'g' => Some(KeybdKey::GKey),
        'H' | 'h' => Some(KeybdKey::HKey),
        'I' | 'i' => Some(KeybdKey::IKey),
        'J' | 'j' => Some(KeybdKey::JKey),
        'K' | 'k' => Some(KeybdKey::KKey),
        'L' | 'l' => Some(KeybdKey::LKey),
        'M' | 'm' => Some(KeybdKey::MKey),
        'N' | 'n' => Some(KeybdKey::NKey),
        'O' | 'o' => Some(KeybdKey::OKey),
        'P' | 'p' => Some(KeybdKey::PKey),
        'Q' | 'q' => Some(KeybdKey::QKey),
        'R' | 'r' => Some(KeybdKey::RKey),
        'S' | 's' => Some(KeybdKey::SKey),
        'T' | 't' => Some(KeybdKey::TKey),
        'U' | 'u' => Some(KeybdKey::UKey),
        'V' | 'v' => Some(KeybdKey::VKey),
        'W' | 'w' => Some(KeybdKey::WKey),
        'X' | 'x' => Some(KeybdKey::XKey),
        'Y' | 'y' => Some(KeybdKey::YKey),
        'Z' | 'z' => Some(KeybdKey::ZKey),
        '0' | ')' => Some(KeybdKey::Numrow0Key),
        '1' | '!' => Some(KeybdKey::Numrow1Key),
        '2' | '@' => Some(KeybdKey::Numrow2Key),
        '3' | '#' => Some(KeybdKey::Numrow3Key),
        '4' | '$' => Some(KeybdKey::Numrow4Key),
        '5' | '%' => Some(KeybdKey::Numrow5Key),
        '6' | '^' => Some(KeybdKey::Numrow6Key),
        '7' | '&' => Some(KeybdKey::Numrow7Key),
        '8' | '*' => Some(KeybdKey::Numrow8Key),
        '9' | '(' => Some(KeybdKey::Numrow9Key),
        '`' | '~' => Some(KeybdKey::BackquoteKey),
        '/' | '?' => Some(KeybdKey::SlashKey),
        ',' | '<' => Some(KeybdKey::CommaKey),
        '.' | '>' => Some(KeybdKey::PeriodKey),
        '-' | '_' => Some(KeybdKey::MinusKey),
        ';' | ':' => Some(KeybdKey::SemicolonKey),
        '[' | '{' => Some(KeybdKey::LBracketKey),
        ']' | '}' => Some(KeybdKey::RBracketKey),
        '=' | '+' => Some(KeybdKey::EqualKey),
        '\\' | '|' => Some(KeybdKey::BackslashKey),
        '\'' | '"' => Some(KeybdKey::QuoteKey),
        _ => None,
    }
}

/// Whether typing `c` takes shift: an upper-case letter, or a punctuation
/// character on the shifted layer of its key.
pub open spec fn needs_shift(c: char) -> bool {
    match c {
        '!' | '@' | '#' | '$' | '%' | '^' | '&' | '*' | '(' | ')' | '_' | '+' | '{' | '}'
        | '|' | ':' | '"' | '<' | '>' | '?' | '~' => true,
        _ => 'A' <= c && c <= 'Z',
    }
}

fn shifted(c: char) -> (r: bool)
    ensures
        r == needs_shift(c),
{
    match c {
        '!' | '@' | '#' | '$' | '%' | '^' | '&' | '*' | '(' | ')' | '_' | '+' | '{' | '}'
        | '|' | ':' | '"' | '<' | '>' | '?' | '~' => true,
        _ => 'A' <= c && c <= 'Z',
    }
}

/// One step of typing a text.
#[derive(Debug, Clone, Copy, PartialEq, Eq, Structural)]
pub enum KeyStep {
    Press(KeybdKey),
    Release(KeybdKey),
    /// The short wait that lets the system see a key held down.
    Pause,
}

/// The steps that type one character: nothing for a character without a
/// key; otherwise press, pause, release, inside a shift press and release
/// when the character needs shift.
pub open spec fn char_steps(c: char) -> Seq<KeyStep> {
    match char_key(c) {
        None => Seq::empty(),
        Some(k) => if needs_shift(c) {
            seq![
                KeyStep::Press(KeybdKey::LShiftKey),
                KeyStep::Press(k),
                KeyStep::Pause,
                KeyStep::Release(k),
                KeyStep::Release(KeybdKey::LShiftKey),
            ]
        } else {
            seq![KeyStep::Press(k), KeyStep::Pause, KeyStep::Release(k)]
        },
    }
}

/// The steps that type a text, character after character.
pub open spec fn text_steps(s: Seq<char>) -> Seq<KeyStep>
    decreases s.len(),
{
    if s.len() == 0 {
        Seq::empty()
    } else {
        text_steps(s.drop_last()) + char_steps(s.last())
    }
}

/// A text to be typed as a sequence of key presses.
pub struct KeySequence<'a>(pub &'a str);

impl<'a> KeySequence<'a> {
    /// The steps that type this text.
    pub fn steps(&self) -> (r: Vec<KeyStep>)
        ensures
            r@ == text_steps(self.0@),
    {
        let text = self.0;
        let n = text.unicode_len();
        let mut r: Vec<KeyStep> = Vec::new();
        let mut i: usize = 0;
        assert(text@.subrange(0, 0) =~= Seq::<char>::empty());
        while i < n
            invariant
                n == text@.len(),
                i <= n,
                r@ == text_steps(text@.subrange(0, i as int)),
            decreases n - i,
        {
            let c = text.get_char(i);
            let ghost before = r@;
            if let Some(k) = get_keybd_key(c) {
                let shift = shifted(c);
                if shift {
                    r.push(KeyStep::Press(KeybdKey::LShiftKey));
                }
                r.push(KeyStep::Press(k));
                r.push(KeyStep::Pause);
                r.push(KeyStep::Release(k));
                if shift {
                    r.push(KeyStep::Release(KeybdKey::LShiftKey));
                }
            }
            assert(r@ =~= before + char_steps(c));
            assert(text@.subrange(0, i + 1).drop_last() =~= text@.subrange(0, i as int));
            i += 1;
        }
        assert(text@.subrange(0, n as int) =~= text@);
        r
    }
}

} // verus!
