//! Canonical names of keys and buttons, and reading them back.
//!
//! Reading ignores case (see `fold_char`). A name is looked up the way a
//! hash table would: its signature (length, middle and last character, in
//! lower case) picks the one key that could have that name, and the whole
//! name is then compared. `OtherKey(<digits>)` and `MouseButton(<digits>)`
//! carry a raw code.

use vstd::prelude::*;
use crate::keys::{KeybdKey, MouseButton};
use crate::text::{
    fold_case, decimal, decimal_string, eq_ignore_case, is_digit, lemma_decimal, lemma_lower_concat,
    lemma_lower_unchanged, to_folded_char, wrapped_number, wrapped_value, wraps_digits,
    Payload,
};

verus! {

/// Why a key or button name could not be read.
#[derive(Debug, PartialEq, Eq)]
pub enum ParseError {
    /// The name has the numeric form, but its number does not fit the code type.
    ParseIntError,
    /// The name is none of the known forms.
    UnknownFormat { val: String },
}

/// The named keyboard key whose signature (length, middle and last character
/// of its lower-case canonical name) is the one given.
pub open spec fn keybd_signature(len: usize, mid: char, last: char) -> Option<KeybdKey> {
    match (len, mid, last) {
        (9, 's', 'e') => Some(KeybdKey::BackspaceKey),
        (3, 'a', 'b') => Some(KeybdKey::TabKey),
        (5, 't', 'r') => Some(KeybdKey::EnterKey),
        (6, 'a', 'e') => Some(KeybdKey::EscapeKey),
        (5, 'a', 'e') => Some(KeybdKey::SpaceKey),
        (6, 'e', 'p') => Some(KeybdKey::PageUpKey),
        (8, 'd', 'n') => Some(KeybdKey::PageDownKey),
        (3, 'n', 'd') => Some(KeybdKey::EndKey),
        (4, 'm', 'e') => Some(KeybdKey::HomeKey),
        (4, 'f', 't') => Some(KeybdKey::LeftKey),
        (2, 'p', 'p') => Some(KeybdKey::UpKey),
        (5, 'g', 't') => Some(KeybdKey::RightKey),
        (4, 'w', 'n') => Some(KeybdKey::DownKey),
        (6, 'e', 't') => Some(KeybdKey::InsertKey),
        (6, 'e', 'e') => Some(KeybdKey::DeleteKey),
        (1, '0', '0') => Some(KeybdKey::Numrow0Key),
        (1, '1', '1') => Some(KeybdKey::Numrow1Key),
        (1, '2', '2') => Some(KeybdKey::Numrow2Key),
        (1, '3', '3') => Some(KeybdKey::Numrow3Key),
        (1, '4', '4') => Some(KeybdKey::Numrow4Key),
        (1, '5', '5') => Some(KeybdKey::Numrow5Key),
        (1, '6', '6') => Some(KeybdKey::Numrow6Key),
        (1, '7', '7') => Some(KeybdKey::Numrow7Key),
        (1, '8', '8') => Some(KeybdKey::Numrow8Key),
        (1, '9', '9') => Some(KeybdKey::Numrow9Key),
        (1, 'a', 'a') => Some(KeybdKey::AKey),
        (1, 'b', 'b') => Some(KeybdKey::BKey),
        (1, 'c', 'c') => Some(KeybdKey::CKey),
        (1, 'd', 'd') => Some(KeybdKey::DKey),
        (1, 'e', 'e') => Some(KeybdKey::EKey),
        (1, 'f', 'f') => Some(KeybdKey::FKey),
        (1, 'g', 'g') => Some(KeybdKey::GKey),
        (1, 'h', 'h') => Some(KeybdKey::HKey),
        (1, 'i', 'i') => Some(KeybdKey::IKey),
        (1, 'j', 'j') => Some(KeybdKey::JKey),
        (1, 'k', 'k') => Some(KeybdKey::KKey),
        (1, 'l', 'l') => Some(KeybdKey::LKey),
        (1, 'm', 'm') => Some(KeybdKey::MKey),
        (1, 'n', 'n') => Some(KeybdKey::NKey),
        (1, 'o', 'o') => Some(KeybdKey::OKey),
        (1, 'p', 'p') => Some(KeybdKey::PKey),
        (1, 'q', 'q') => Some(KeybdKey::QKey),
        (1, 'r', 'r') => Some(KeybdKey::RKey),
        (1, 's', 's') => Some(KeybdKey::SKey),
        (1, 't', 't') => Some(KeybdKey::TKey),
        (1, 'u', 'u') => Some(KeybdKey::UKey),
        (1, 'v', 'v') => Some(KeybdKey::VKey),
        (1, 'w', 'w') => Some(KeybdKey::WKey),
        (1, 'x', 'x') => Some(KeybdKey::XKey),
        (1, 'y', 'y') => Some(KeybdKey::YKey),
        (1, 'z', 'z') => Some(KeybdKey::ZKey),
        (9, 's', 'r') => Some(KeybdKey::LSuper),
        (10, 's', 'r') => Some(KeybdKey::RSuper),
        (7, 'p', '0') => Some(KeybdKey::Numpad0Key),
        (7, 'p', '1') => Some(KeybdKey::Numpad1Key),
        (7, 'p', '2') => Some(KeybdKey::Numpad2Key),
        (7, 'p', '3') => Some(KeybdKey::Numpad3Key),
        (7, 'p', '4') => Some(KeybdKey::Numpad4Key),
        (7, 'p', '5') => Some(KeybdKey::Numpad5Key),
        (7, 'p', '6') => Some(KeybdKey::Numpad6Key),
        (7, 'p', '7') => Some(KeybdKey::Numpad7Key),
        (7, 'p', '8') => Some(KeybdKey::Numpad8Key),
        (7, 'p', '9') => Some(KeybdKey::Numpad9Key),
        (2, '1', '1') => Some(KeybdKey::F1Key),
        (2, '2', '2') => Some(KeybdKey::F2Key),
        (2, '3', '3') => Some(KeybdKey::F3Key),
        (2, '4', '4') => Some(KeybdKey::F4Key),
        (2, '5', '5') => Some(KeybdKey::F5Key),
        (2, '6', '6') => Some(KeybdKey::F6Key),
        (2, '7', '7') => Some(KeybdKey::F7Key),
        (2, '8', '8') => Some(KeybdKey::F8Key),
        (2, '9', '9') => Some(KeybdKey::F9Key),
        (3, '1', '0') => Some(KeybdKey::F10Key),
        (3, '1', '1') => Some(KeybdKey::F11Key),
        (3, '1', '2') => Some(KeybdKey::F12Key),
        (3, '1', '3') => Some(KeybdKey::F13Key),
        (3, '1', '4') => Some(KeybdKey::F14Key),
        (3, '1', '5') => Some(KeybdKey::F15Key),
        (3, '1', '6') => Some(KeybdKey::F16Key),
        (3, '1', '7') => Some(KeybdKey::F17Key),
        (3, '1', '8') => Some(KeybdKey::F18Key),
        (3, '1', '9') => Some(KeybdKey::F19Key),
        (3, '2', '0') => Some(KeybdKey::F20Key),
        (3, '2', '1') => Some(KeybdKey::F21Key),
        (3, '2', '2') => Some(KeybdKey::F22Key),
        (3, '2', '3') => Some(KeybdKey::F23Key),
        (3, '2', '4') => Some(KeybdKey::F24Key),
        (7, 'l', 'k') => Some(KeybdKey::NumLockKey),
        (10, 'l', 'k') => Some(KeybdKey::ScrollLockKey),
        (8, 'l', 'k') => Some(KeybdKey::CapsLockKey),
        (9, 's', 't') => Some(KeybdKey::LShiftKey),
        (10, 's', 't') => Some(KeybdKey::RShiftKey),
        (11, 'o', 'l') => Some(KeybdKey::LControlKey),
        (12, 'o', 'l') => Some(KeybdKey::RControlKey),
        (7, 't', 't') => Some(KeybdKey::LAltKey),
        (8, 't', 't') => Some(KeybdKey::RAltKey),
        (4, 'c', 'k') => Some(KeybdKey::BrowserBackKey),
        (7, 'w', 'd') => Some(KeybdKey::BrowserForwardKey),
        (7, 'r', 'h') => Some(KeybdKey::BrowserRefreshKey),
        (10, 'e', 'e') => Some(KeybdKey::VolumeMuteKey),
        (10, 'e', 'n') => Some(KeybdKey::VolumeDownKey),
        (8, 'm', 'p') => Some(KeybdKey::VolumeUpKey),
        (9, 'a', 't') => Some(KeybdKey::MediaNextTrackKey),
        (13, 'r', 's') => Some(KeybdKey::MediaPrevTrackKey),
        (9, 'a', 'p') => Some(KeybdKey::MediaStopKey),
        (9, 'a', 'y') => Some(KeybdKey::MediaPlayPauseKey),
        (9, 'q', 'e') => Some(KeybdKey::BackquoteKey),
        (5, 'a', 'h') => Some(KeybdKey::SlashKey),
        (9, 's', 'h') => Some(KeybdKey::BackslashKey),
        (5, 'm', 'a') => Some(KeybdKey::CommaKey),
        (6, 'i', 'd') => Some(KeybdKey::PeriodKey),
        (5, 'n', 's') => Some(KeybdKey::MinusKey),
        (8, 'e', 'y') => Some(KeybdKey::QuoteKey),
        (9, 'c', 'n') => Some(KeybdKey::SemicolonKey),
        (11, 'r', 't') => Some(KeybdKey::LBracketKey),
        (12, 'r', 't') => Some(KeybdKey::RBracketKey),
        (5, 'u', 'l') => Some(KeybdKey::EqualKey),
        _ => None,
    }
}

fn keybd_key_with_signature(len: usize, mid: char, last: char) -> (r: Option<KeybdKey>)
    ensures
        r == keybd_signature(len, mid, last),
{
    match (len, mid, last) {
        (9, 's', 'e') => Some(KeybdKey::BackspaceKey),
        (3, 'a', 'b') => Some(KeybdKey::TabKey),
        (5, 't', 'r') => Some(KeybdKey::EnterKey),
        (6, 'a', 'e') => Some(KeybdKey::EscapeKey),
        (5, 'a', 'e') => Some(KeybdKey::SpaceKey),
        (6, 'e', 'p') => Some(KeybdKey::PageUpKey),
        (8, 'd', 'n') => Some(KeybdKey::PageDownKey),
        (3, 'n', 'd') => Some(KeybdKey::EndKey),
        (4, 'm', 'e') => Some(KeybdKey::HomeKey),
        (4, 'f', 't') => Some(KeybdKey::LeftKey),
        (2, 'p', 'p') => Some(KeybdKey::UpKey),
        (5, 'g', 't') => Some(KeybdKey::RightKey),
        (4, 'w', 'n') => Some(KeybdKey::DownKey),
        (6, 'e', 't') => Some(KeybdKey::InsertKey),
        (6, 'e', 'e') => Some(KeybdKey::DeleteKey),
        (1, '0', '0') => Some(KeybdKey::Numrow0Key),
        (1, '1', '1') => Some(KeybdKey::Numrow1Key),
        (1, '2', '2') => Some(KeybdKey::Numrow2Key),
        (1, '3', '3') => Some(KeybdKey::Numrow3Key),
        (1, '4', '4') => Some(KeybdKey::Numrow4Key),
        (1, '5', '5') => Some(KeybdKey::Numrow5Key),
        (1, '6', '6') => Some(KeybdKey::Numrow6Key),
        (1, '7', '7') => Some(KeybdKey::Numrow7Key),
        (1, '8', '8') => Some(KeybdKey::Numrow8Key),
        (1, '9', '9') => Some(KeybdKey::Numrow9Key),
        (1, 'a', 'a') => Some(KeybdKey::AKey),
        (1, 'b', 'b') => Some(KeybdKey::BKey),
        (1, 'c', 'c') => Some(KeybdKey::CKey),
        (1, 'd', 'd') => Some(KeybdKey::DKey),
        (1, 'e', 'e') => Some(KeybdKey::EKey),
        (1, 'f', 'f') => Some(KeybdKey::FKey),
        (1, 'g', 'g') => Some(KeybdKey::GKey),
        (1, 'h', 'h') => Some(KeybdKey::HKey),
        (1, 'i', 'i') => Some(KeybdKey::IKey),
        (1, 'j', 'j') => Some(KeybdKey::JKey),
        (1, 'k', 'k') => Some(KeybdKey::KKey),
        (1, 'l', 'l') => Some(KeybdKey::LKey),
        (1, 'm', 'm') => Some(KeybdKey::MKey),
        (1, 'n', 'n') => Some(KeybdKey::NKey),
        (1, 'o', 'o') => Some(KeybdKey::OKey),
        (1, 'p', 'p') => Some(KeybdKey::PKey),
        (1, 'q', 'q') => Some(KeybdKey::QKey),
        (1, 'r', 'r') => Some(KeybdKey::RKey),
        (1, 's', 's') => Some(KeybdKey::SKey),
        (1, 't', 't') => Some(KeybdKey::TKey),
        (1, 'u', 'u') => Some(KeybdKey::UKey),
        (1, 'v', 'v') => Some(KeybdKey::VKey),
        (1, 'w', 'w') => Some(KeybdKey::WKey),
        (1, 'x', 'x') => Some(KeybdKey::XKey),
        (1, 'y', 'y') => Some(KeybdKey::YKey),
        (1, 'z', 'z') => Some(KeybdKey::ZKey),
        (9, 's', 'r') => Some(KeybdKey::LSuper),
        (10, 's', 'r') => Some(KeybdKey::RSuper),
        (7, 'p', '0') => Some(KeybdKey::Numpad0Key),
        (7, 'p', '1') => Some(KeybdKey::Numpad1Key),
        (7, 'p', '2') => Some(KeybdKey::Numpad2Key),
        (7, 'p', '3') => Some(KeybdKey::Numpad3Key),
        (7, 'p', '4') => Some(KeybdKey::Numpad4Key),
        (7, 'p', '5') => Some(KeybdKey::Numpad5Key),
        (7, 'p', '6') => Some(KeybdKey::Numpad6Key),
        (7, 'p', '7') => Some(KeybdKey::Numpad7Key),
        (7, 'p', '8') => Some(KeybdKey::Numpad8Key),
        (7, 'p', '9') => Some(KeybdKey::Numpad9Key),
        (2, '1', '1') => Some(KeybdKey::F1Key),
        (2, '2', '2') => Some(KeybdKey::F2Key),
        (2, '3', '3') => Some(KeybdKey::F3Key),
        (2, '4', '4') => Some(KeybdKey::F4Key),
        (2, '5', '5') => Some(KeybdKey::F5Key),
        (2, '6', '6') => Some(KeybdKey::F6Key),
        (2, '7', '7') => Some(KeybdKey::F7Key),
        (2, '8', '8') => Some(KeybdKey::F8Key),
        (2, '9', '9') => Some(KeybdKey::F9Key),
        (3, '1', '0') => Some(KeybdKey::F10Key),
        (3, '1', '1') => Some(KeybdKey::F11Key),
        (3, '1', '2') => Some(KeybdKey::F12Key),
        (3, '1', '3') => Some(KeybdKey::F13Key),
        (3, '1', '4') => Some(KeybdKey::F14Key),
        (3, '1', '5') => Some(KeybdKey::F15Key),
        (3, '1', '6') => Some(KeybdKey::F16Key),
        (3, '1', '7') => Some(KeybdKey::F17Key),
        (3, '1', '8') => Some(KeybdKey::F18Key),
        (3, '1', '9') => Some(KeybdKey::F19Key),
        (3, '2', '0') => Some(KeybdKey::F20Key),
        (3, '2', '1') => Some(KeybdKey::F21Key),
        (3, '2', '2') => Some(KeybdKey::F22Key),
        (3, '2', '3') => Some(KeybdKey::F23Key),
        (3, '2', '4') => Some(KeybdKey::F24Key),
        (7, 'l', 'k') => Some(KeybdKey::NumLockKey),
        (10, 'l', 'k') => Some(KeybdKey::ScrollLockKey),
        (8, 'l', 'k') => Some(KeybdKey::CapsLockKey),
        (9, 's', 't') => Some(KeybdKey::LShiftKey),
        (10, 's', 't') => Some(KeybdKey::RShiftKey),
        (11, 'o', 'l') => Some(KeybdKey::LControlKey),
        (12, 'o', 'l') => Some(KeybdKey::RControlKey),
        (7, 't', 't') => Some(KeybdKey::LAltKey),
        (8, 't', 't') => Some(KeybdKey::RAltKey),
        (4, 'c', 'k') => Some(KeybdKey::BrowserBackKey),
        (7, 'w', 'd') => Some(KeybdKey::BrowserForwardKey),
        (7, 'r', 'h') => Some(KeybdKey::BrowserRefreshKey),
        (10, 'e', 'e') => Some(KeybdKey::VolumeMuteKey),
        (10, 'e', 'n') => Some(KeybdKey::VolumeDownKey),
        (8, 'm', 'p') => Some(KeybdKey::VolumeUpKey),
        (9, 'a', 't') => Some(KeybdKey::MediaNextTrackKey),
        (13, 'r', 's') => Some(KeybdKey::MediaPrevTrackKey),
        (9, 'a', 'p') => Some(KeybdKey::MediaStopKey),
        (9, 'a', 'y') => Some(KeybdKey::MediaPlayPauseKey),
        (9, 'q', 'e') => Some(KeybdKey::BackquoteKey),
        (5, 'a', 'h') => Some(KeybdKey::SlashKey),
        (9, 's', 'h') => Some(KeybdKey::BackslashKey),
        (5, 'm', 'a') => Some(KeybdKey::CommaKey),
        (6, 'i', 'd') => Some(KeybdKey::PeriodKey),
        (5, 'n', 's') => Some(KeybdKey::MinusKey),
        (8, 'e', 'y') => Some(KeybdKey::QuoteKey),
        (9, 'c', 'n') => Some(KeybdKey::SemicolonKey),
        (11, 'r', 't') => Some(KeybdKey::LBracketKey),
        (12, 'r', 't') => Some(KeybdKey::RBracketKey),
        (5, 'u', 'l') => Some(KeybdKey::EqualKey),
        _ => None,
    }
}

/// The named mouse button whose signature is the one given.
pub open spec fn mouse_signature(len: usize, mid: char, last: char) -> Option<MouseButton> {
    match (len, mid, last) {
        (9, 'c', 'k') => Some(MouseButton::LeftButton),
        (11, 'e', 'k') => Some(MouseButton::MiddleButton),
        (10, 'c', 'k') => Some(MouseButton::RightButton),
        (13, 'a', 'd') => Some(MouseButton::X1Button),
        (12, 'o', 'd') => Some(MouseButton::X2Button),
        (12, 'h', 'p') => Some(MouseButton::MousewheelUp),
        (14, 'e', 'n') => Some(MouseButton::MousewheelDown),
        _ => None,
    }
}

fn mouse_button_with_signature(len: usize, mid: char, last: char) -> (r: Option<MouseButton>)
    ensures
        r == mouse_signature(len, mid, last),
{
    match (len, mid, last) {
        (9, 'c', 'k') => Some(MouseButton::LeftButton),
        (11, 'e', 'k') => Some(MouseButton::MiddleButton),
        (10, 'c', 'k') => Some(MouseButton::RightButton),
        (13, 'a', 'd') => Some(MouseButton::X1Button),
        (12, 'o', 'd') => Some(MouseButton::X2Button),
        (12, 'h', 'p') => Some(MouseButton::MousewheelUp),
        (14, 'e', 'n') => Some(MouseButton::MousewheelDown),
        _ => None,
    }
}

/// The named key whose canonical name is `l` (already lower case), if any.
pub open spec fn named_keybd_key(l: Seq<char>) -> Option<KeybdKey> {
    if l.len() == 0 || l.len() > usize::MAX {
        None
    } else {
        match keybd_signature(l.len() as usize, l[(l.len() / 2) as int], l.last()) {
            Some(k) => if l == fold_case(k.name()) {
                Some(k)
            } else {
                None
            },
            None => None,
        }
    }
}

/// The named button whose canonical name is `l` (already lower case), if any.
pub open spec fn named_mouse_button(l: Seq<char>) -> Option<MouseButton> {
    if l.len() == 0 || l.len() > usize::MAX {
        None
    } else {
        match mouse_signature(l.len() as usize, l[(l.len() / 2) as int], l.last()) {
            Some(b) => if l == fold_case(b.name()) {
                Some(b)
            } else {
                None
            },
            None => None,
        }
    }
}

/// Whether `l` (lower case) is one of the platform spellings of the left super key.
pub open spec fn is_left_super_alias(l: Seq<char>) -> bool {
    l == fold_case("LeftWindows"@) || l == fold_case("LeftCommand"@)
}

/// Whether `l` (lower case) is one of the platform spellings of the right super key.
pub open spec fn is_right_super_alias(l: Seq<char>) -> bool {
    l == fold_case("RightWindows"@) || l == fold_case("RightCommand"@)
}

/// The key that a name denotes, ignoring case: a
/// canonical name, a platform spelling of a super key, or `OtherKey(<digits>)`
/// whose number fits in a `u64`.
pub open spec fn keybd_key_from_name(s: Seq<char>) -> Option<KeybdKey> {
    let l = fold_case(s);
    let p = fold_case("OtherKey("@);
    match named_keybd_key(l) {
        Some(k) => Some(k),
        None => if is_left_super_alias(l) {
            Some(KeybdKey::LSuper)
        } else if is_right_super_alias(l) {
            Some(KeybdKey::RSuper)
        } else if wraps_digits(l, p) && wrapped_value(l, p) <= u64::MAX {
            Some(KeybdKey::OtherKey(wrapped_value(l, p) as u64))
        } else {
            None
        },
    }
}

/// Whether a name has the form `OtherKey(<digits>)` with a number too large for a `u64`.
pub open spec fn keybd_name_overflows(s: Seq<char>) -> bool {
    let l = fold_case(s);
    let p = fold_case("OtherKey("@);
    &&& named_keybd_key(l) is None
    &&& !is_left_super_alias(l)
    &&& !is_right_super_alias(l)
    &&& wraps_digits(l, p)
    &&& wrapped_value(l, p) > u64::MAX
}

/// The button that a name denotes, ignoring case: a
/// canonical name, or `MouseButton(<digits>)` whose number fits in a `u32`.
pub open spec fn mouse_button_from_name(s: Seq<char>) -> Option<MouseButton> {
    let l = fold_case(s);
    let p = fold_case("MouseButton("@);
    match named_mouse_button(l) {
        Some(b) => Some(b),
        None => if wraps_digits(l, p) && wrapped_value(l, p) <= u32::MAX {
            Some(MouseButton::OtherButton(wrapped_value(l, p) as u32))
        } else {
            None
        },
    }
}

/// Whether a name has the form `MouseButton(<digits>)` with a number too large for a `u32`.
pub open spec fn mouse_name_overflows(s: Seq<char>) -> bool {
    let l = fold_case(s);
    let p = fold_case("MouseButton("@);
    &&& named_mouse_button(l) is None
    &&& wraps_digits(l, p)
    &&& wrapped_value(l, p) > u32::MAX
}

impl KeybdKey {
    /// The canonical name of a key.
    pub open spec fn name(self) -> Seq<char> {
        match self {
            KeybdKey::BackspaceKey => "Backspace"@,
            KeybdKey::TabKey => "Tab"@,
            KeybdKey::EnterKey => "Enter"@,
            KeybdKey::EscapeKey => "Escape"@,
            KeybdKey::SpaceKey => "Space"@,
            KeybdKey::PageUpKey => "PageUp"@,
            KeybdKey::PageDownKey => "PageDown"@,
            KeybdKey::EndKey => "End"@,
            KeybdKey::HomeKey => "Home"@,
            KeybdKey::LeftKey => "Left"@,
            KeybdKey::UpKey => "Up"@,
            KeybdKey::RightKey => "Right"@,
            KeybdKey::DownKey => "Down"@,
            KeybdKey::InsertKey => "Insert"@,
            KeybdKey::DeleteKey => "Delete"@,
            KeybdKey::Numrow0Key => "0"@,
            KeybdKey::Numrow1Key => "1"@,
            KeybdKey::Numrow2Key => "2"@,
            KeybdKey::Numrow3Key => "3"@,
            KeybdKey::Numrow4Key => "4"@,
            KeybdKey::Numrow5Key => "5"@,
            KeybdKey::Numrow6Key => "6"@,
            KeybdKey::Numrow7Key => "7"@,
            KeybdKey::Numrow8Key => "8"@,
            KeybdKey::Numrow9Key => "9"@,
            KeybdKey::AKey => "a"@,
            KeybdKey::BKey => "b"@,
            KeybdKey::CKey => "c"@,
            KeybdKey::DKey => "d"@,
            KeybdKey::EKey => "e"@,
            KeybdKey::FKey => "f"@,
            KeybdKey::GKey => "g"@,
            KeybdKey::HKey => "h"@,
            KeybdKey::IKey => "i"@,
            KeybdKey::JKey => "j"@,
            KeybdKey::KKey => "k"@,
            KeybdKey::LKey => "l"@,
            KeybdKey::MKey => "m"@,
            KeybdKey::NKey => "n"@,
            KeybdKey::OKey => "o"@,
            KeybdKey::PKey => "p"@,
            KeybdKey::QKey => "q"@,
            KeybdKey::RKey => "r"@,
            KeybdKey::SKey => "s"@,
            KeybdKey::TKey => "t"@,
            KeybdKey::UKey => "u"@,
            KeybdKey::VKey => "v"@,
            KeybdKey::WKey => "w"@,
            KeybdKey::XKey => "x"@,
            KeybdKey::YKey => "y"@,
            KeybdKey::ZKey => "z"@,
            KeybdKey::LSuper => "LeftSuper"@,
            KeybdKey::RSuper => "RightSuper"@,
            KeybdKey::Numpad0Key => "NumPad0"@,
            KeybdKey::Numpad1Key => "NumPad1"@,
            KeybdKey::Numpad2Key => "NumPad2"@,
            KeybdKey::Numpad3Key => "NumPad3"@,
            KeybdKey::Numpad4Key => "NumPad4"@,
            KeybdKey::Numpad5Key => "NumPad5"@,
            KeybdKey::Numpad6Key => "NumPad6"@,
            KeybdKey::Numpad7Key => "NumPad7"@,
            KeybdKey::Numpad8Key => "NumPad8"@,
            KeybdKey::Numpad9Key => "NumPad9"@,
            KeybdKey::F1Key => "F1"@,
            KeybdKey::F2Key => "F2"@,
            KeybdKey::F3Key => "F3"@,
            KeybdKey::F4Key => "F4"@,
            KeybdKey::F5Key => "F5"@,
            KeybdKey::F6Key => "F6"@,
            KeybdKey::F7Key => "F7"@,
            KeybdKey::F8Key => "F8"@,
            KeybdKey::F9Key => "F9"@,
            KeybdKey::F10Key => "F10"@,
            KeybdKey::F11Key => "F11"@,
            KeybdKey::F12Key => "F12"@,
            KeybdKey::F13Key => "F13"@,
            KeybdKey::F14Key => "F14"@,
            KeybdKey::F15Key => "F15"@,
            KeybdKey::F16Key => "F16"@,
            KeybdKey::F17Key => "F17"@,
            KeybdKey::F18Key => "F18"@,
            KeybdKey::F19Key => "F19"@,
            KeybdKey::F20Key => "F20"@,
            KeybdKey::F21Key => "F21"@,
            KeybdKey::F22Key => "F22"@,
            KeybdKey::F23Key => "F23"@,
            KeybdKey::F24Key => "F24"@,
            KeybdKey::NumLockKey => "NumLock"@,
            KeybdKey::ScrollLockKey => "ScrollLock"@,
            KeybdKey::CapsLockKey => "CapsLock"@,
            KeybdKey::LShiftKey => "LeftShift"@,
            KeybdKey::RShiftKey => "RightShift"@,
            KeybdKey::LControlKey => "LeftControl"@,
            KeybdKey::RControlKey => "RightControl"@,
            KeybdKey::LAltKey => "LeftAlt"@,
            KeybdKey::RAltKey => "RightAlt"@,
            KeybdKey::BrowserBackKey => "Back"@,
            KeybdKey::BrowserForwardKey => "Forward"@,
            KeybdKey::BrowserRefreshKey => "Refresh"@,
            KeybdKey::VolumeMuteKey => "VolumeMute"@,
            KeybdKey::VolumeDownKey => "VolumeDown"@,
            KeybdKey::VolumeUpKey => "VolumeUp"@,
            KeybdKey::MediaNextTrackKey => "MediaNext"@,
            KeybdKey::MediaPrevTrackKey => "MediaPrevious"@,
            KeybdKey::MediaStopKey => "MediaStop"@,
            KeybdKey::MediaPlayPauseKey => "MediaPlay"@,
            KeybdKey::BackquoteKey => "Backquote"@,
            KeybdKey::SlashKey => "Slash"@,
            KeybdKey::BackslashKey => "Backslash"@,
            KeybdKey::CommaKey => "Comma"@,
            KeybdKey::PeriodKey => "Period"@,
            KeybdKey::MinusKey => "Minus"@,
            KeybdKey::QuoteKey => "QuoteKey"@,
            KeybdKey::SemicolonKey => "Semicolon"@,
            KeybdKey::LBracketKey => "LeftBracket"@,
            KeybdKey::RBracketKey => "RightBracket"@,
            KeybdKey::EqualKey => "Equal"@,
            KeybdKey::OtherKey(code) => "OtherKey("@ + decimal(code as nat) + ")"@,
        }
    }

    fn named_str(self) -> (r: &'static str)
        requires
            self.is_named(),
        ensures
            r@ == self.name(),
    {
        match self {
            KeybdKey::BackspaceKey => "Backspace",
            KeybdKey::TabKey => "Tab",
            KeybdKey::EnterKey => "Enter",
            KeybdKey::EscapeKey => "Escape",
            KeybdKey::SpaceKey => "Space",
            KeybdKey::PageUpKey => "PageUp",
            KeybdKey::PageDownKey => "PageDown",
            KeybdKey::EndKey => "End",
            KeybdKey::HomeKey => "Home",
            KeybdKey::LeftKey => "Left",
            KeybdKey::UpKey => "Up",
            KeybdKey::RightKey => "Right",
            KeybdKey::DownKey => "Down",
            KeybdKey::InsertKey => "Insert",
            KeybdKey::DeleteKey => "Delete",
            KeybdKey::Numrow0Key => "0",
            KeybdKey::Numrow1Key => "1",
            KeybdKey::Numrow2Key => "2",
            KeybdKey::Numrow3Key => "3",
            KeybdKey::Numrow4Key => "4",
            KeybdKey::Numrow5Key => "5",
            KeybdKey::Numrow6Key => "6",
            KeybdKey::Numrow7Key => "7",
            KeybdKey::Numrow8Key => "8",
            KeybdKey::Numrow9Key => "9",
            KeybdKey::AKey => "a",
            KeybdKey::BKey => "b",
            KeybdKey::CKey => "c",
            KeybdKey::DKey => "d",
            KeybdKey::EKey => "e",
            KeybdKey::FKey => "f",
            KeybdKey::GKey => "g",
            KeybdKey::HKey => "h",
            KeybdKey::IKey => "i",
            KeybdKey::JKey => "j",
            KeybdKey::KKey => "k",
            KeybdKey::LKey => "l",
            KeybdKey::MKey => "m",
            KeybdKey::NKey => "n",
            KeybdKey::OKey => "o",
            KeybdKey::PKey => "p",
            KeybdKey::QKey => "q",
            KeybdKey::RKey => "r",
            KeybdKey::SKey => "s",
            KeybdKey::TKey => "t",
            KeybdKey::UKey => "u",
            KeybdKey::VKey => "v",
            KeybdKey::WKey => "w",
            KeybdKey::XKey => "x",
            KeybdKey::YKey => "y",
            KeybdKey::ZKey => "z",
            KeybdKey::LSuper => "LeftSuper",
            KeybdKey::RSuper => "RightSuper",
            KeybdKey::Numpad0Key => "NumPad0",
            KeybdKey::Numpad1Key => "NumPad1",
            KeybdKey::Numpad2Key => "NumPad2",
            KeybdKey::Numpad3Key => "NumPad3",
            KeybdKey::Numpad4Key => "NumPad4",
            KeybdKey::Numpad5Key => "NumPad5",
            KeybdKey::Numpad6Key => "NumPad6",
            KeybdKey::Numpad7Key => "NumPad7",
            KeybdKey::Numpad8Key => "NumPad8",
            KeybdKey::Numpad9Key => "NumPad9",
            KeybdKey::F1Key => "F1",
            KeybdKey::F2Key => "F2",
            KeybdKey::F3Key => "F3",
            KeybdKey::F4Key => "F4",
            KeybdKey::F5Key => "F5",
            KeybdKey::F6Key => "F6",
            KeybdKey::F7Key => "F7",
            KeybdKey::F8Key => "F8",
            KeybdKey::F9Key => "F9",
            KeybdKey::F10Key => "F10",
            KeybdKey::F11Key => "F11",
            KeybdKey::F12Key => "F12",
            KeybdKey::F13Key => "F13",
            KeybdKey::F14Key => "F14",
            KeybdKey::F15Key => "F15",
            KeybdKey::F16Key => "F16",
            KeybdKey::F17Key => "F17",
            KeybdKey::F18Key => "F18",
            KeybdKey::F19Key => "F19",
            KeybdKey::F20Key => "F20",
            KeybdKey::F21Key => "F21",
            KeybdKey::F22Key => "F22",
            KeybdKey::F23Key => "F23",
            KeybdKey::F24Key => "F24",
            KeybdKey::NumLockKey => "NumLock",
            KeybdKey::ScrollLockKey => "ScrollLock",
            KeybdKey::CapsLockKey => "CapsLock",
            KeybdKey::LShiftKey => "LeftShift",
            KeybdKey::RShiftKey => "RightShift",
            KeybdKey::LControlKey => "LeftControl",
            KeybdKey::RControlKey => "RightControl",
            KeybdKey::LAltKey => "LeftAlt",
            KeybdKey::RAltKey => "RightAlt",
            KeybdKey::BrowserBackKey => "Back",
            KeybdKey::BrowserForwardKey => "Forward",
            KeybdKey::BrowserRefreshKey => "Refresh",
            KeybdKey::VolumeMuteKey => "VolumeMute",
            KeybdKey::VolumeDownKey => "VolumeDown",
            KeybdKey::VolumeUpKey => "VolumeUp",
            KeybdKey::MediaNextTrackKey => "MediaNext",
            KeybdKey::MediaPrevTrackKey => "MediaPrevious",
            KeybdKey::MediaStopKey => "MediaStop",
            KeybdKey::MediaPlayPauseKey => "MediaPlay",
            KeybdKey::BackquoteKey => "Backquote",
            KeybdKey::SlashKey => "Slash",
            KeybdKey::BackslashKey => "Backslash",
            KeybdKey::CommaKey => "Comma",
            KeybdKey::PeriodKey => "Period",
            KeybdKey::MinusKey => "Minus",
            KeybdKey::QuoteKey => "QuoteKey",
            KeybdKey::SemicolonKey => "Semicolon",
            KeybdKey::LBracketKey => "LeftBracket",
            KeybdKey::RBracketKey => "RightBracket",
            KeybdKey::EqualKey => "Equal",
            KeybdKey::OtherKey(_) => "",
        }
    }

    /// The canonical name of the key; it reads back as the same key.
    pub fn canonical_name(self) -> (r: String)
        ensures
            r@ == self.name(),
    {
        match self {
            KeybdKey::OtherKey(code) => {
                let mut r = String::from_str("OtherKey(");
                let digits = decimal_string(code);
                r.append(digits.as_str());
                r.append(")");
                r
            },
            _ => String::from_str(self.named_str()),
        }
    }

    /// The key's name as text; the same as its canonical name.
    pub fn to_string(&self) -> (r: String)
        ensures
            r@ == self.name(),
    {
        self.canonical_name()
    }

    /// Reads a key from its name, ignoring case.
    pub fn from_str(s: &str) -> (r: Result<KeybdKey, ParseError>)
        ensures
            match r {
                Ok(k) => keybd_key_from_name(s@) == Some(k),
                Err(ParseError::ParseIntError) => keybd_name_overflows(s@),
                Err(ParseError::UnknownFormat { val }) => {
                    &&& keybd_key_from_name(s@) is None
                    &&& !keybd_name_overflows(s@)
                    &&& val@ == s@
                },
            },
    {
        let n = s.unicode_len();
        if 0 < n {
            let mid = to_folded_char(s.get_char(n / 2));
            let last = to_folded_char(s.get_char(n - 1));
            if let Some(k) = keybd_key_with_signature(n, mid, last) {
                if eq_ignore_case(s, k.named_str()) {
                    return Ok(k);
                }
            }
        }
        assert(named_keybd_key(fold_case(s@)) is None);
        if eq_ignore_case(s, "LeftWindows") || eq_ignore_case(s, "LeftCommand") {
            return Ok(KeybdKey::LSuper);
        }
        if eq_ignore_case(s, "RightWindows") || eq_ignore_case(s, "RightCommand") {
            return Ok(KeybdKey::RSuper);
        }
        match wrapped_number(s, "OtherKey(", u64::MAX) {
            Payload::Value(v) => Ok(KeybdKey::OtherKey(v)),
            Payload::TooLarge => Err(ParseError::ParseIntError),
            Payload::Absent => Err(ParseError::UnknownFormat { val: String::from_str(s) }),
        }
    }
}

impl MouseButton {
    /// The canonical name of a button.
    pub open spec fn name(self) -> Seq<char> {
        match self {
            MouseButton::LeftButton => "LeftClick"@,
            MouseButton::MiddleButton => "MiddleClick"@,
            MouseButton::RightButton => "RightClick"@,
            MouseButton::X1Button => "MouseBackward"@,
            MouseButton::X2Button => "MouseForward"@,
            MouseButton::MousewheelUp => "MousewheelUp"@,
            MouseButton::MousewheelDown => "MousewheelDown"@,
            MouseButton::OtherButton(code) => "MouseButton("@ + decimal(code as nat) + ")"@,
        }
    }

    fn named_str(self) -> (r: &'static str)
        requires
            self.is_named(),
        ensures
            r@ == self.name(),
    {
        match self {
            MouseButton::LeftButton => "LeftClick",
            MouseButton::MiddleButton => "MiddleClick",
            MouseButton::RightButton => "RightClick",
            MouseButton::X1Button => "MouseBackward",
            MouseButton::X2Button => "MouseForward",
            MouseButton::MousewheelUp => "MousewheelUp",
            MouseButton::MousewheelDown => "MousewheelDown",
            MouseButton::OtherButton(_) => "",
        }
    }

    /// The canonical name of the button; it reads back as the same button.
    pub fn canonical_name(self) -> (r: String)
        ensures
            r@ == self.name(),
    {
        match self {
            MouseButton::OtherButton(code) => {
                let mut r = String::from_str("MouseButton(");
                let digits = decimal_string(code as u64);
                r.append(digits.as_str());
                r.append(")");
                r
            },
            _ => String::from_str(self.named_str()),
        }
    }

    /// The button's name as text; the same as its canonical name.
    pub fn to_string(&self) -> (r: String)
        ensures
            r@ == self.name(),
    {
        self.canonical_name()
    }

    /// Reads a button from its name, ignoring case.
    pub fn from_str(s: &str) -> (r: Result<MouseButton, ParseError>)
        ensures
            match r {
                Ok(b) => mouse_button_from_name(s@) == Some(b),
                Err(ParseError::ParseIntError) => mouse_name_overflows(s@),
                Err(ParseError::UnknownFormat { val }) => {
                    &&& mouse_button_from_name(s@) is None
                    &&& !mouse_name_overflows(s@)
                    &&& val@ == s@
                },
            },
    {
        let n = s.unicode_len();
        if 0 < n {
            let mid = to_folded_char(s.get_char(n / 2));
            let last = to_folded_char(s.get_char(n - 1));
            if let Some(b) = mouse_button_with_signature(n, mid, last) {
                if eq_ignore_case(s, b.named_str()) {
                    return Ok(b);
                }
            }
        }
        assert(named_mouse_button(fold_case(s@)) is None);
        match wrapped_number(s, "MouseButton(", u32::MAX as u64) {
            Payload::Value(v) => Ok(MouseButton::OtherButton(v as u32)),
            Payload::TooLarge => Err(ParseError::ParseIntError),
            Payload::Absent => Err(ParseError::UnknownFormat { val: String::from_str(s) }),
        }
    }
}

} // verus!

verus! {

/// The lower-case name of a named key leads the lookup back to that key.
proof fn lemma_named_keybd_key(k: KeybdKey)
    requires
        k.is_named(),
    ensures
        named_keybd_key(fold_case(k.name())) == Some(k),
{
    let l = fold_case(k.name());
    match k {
        KeybdKey::BackspaceKey => {
            reveal_strlit("Backspace");
            assert(l[4] == 's' && l.last() == 'e');
        },
        KeybdKey::TabKey => {
            reveal_strlit("Tab");
            assert(l[1] == 'a' && l.last() == 'b');
        },
        KeybdKey::EnterKey => {
            reveal_strlit("Enter");
            assert(l[2] == 't' && l.last() == 'r');
        },
        KeybdKey::EscapeKey => {
            reveal_strlit("Escape");
            assert(l[3] == 'a' && l.last() == 'e');
        },
        KeybdKey::SpaceKey => {
            reveal_strlit("Space");
            assert(l[2] == 'a' && l.last() == 'e');
        },
        KeybdKey::PageUpKey => {
            reveal_strlit("PageUp");
            assert(l[3] == 'e' && l.last() == 'p');
        },
        KeybdKey::PageDownKey => {
            reveal_strlit("PageDown");
            assert(l[4] == 'd' && l.last() == 'n');
        },
        KeybdKey::EndKey => {
            reveal_strlit("End");
            assert(l[1] == 'n' && l.last() == 'd');
        },
        KeybdKey::HomeKey => {
            reveal_strlit("Home");
            assert(l[2] == 'm' && l.last() == 'e');
        },
        KeybdKey::LeftKey => {
            reveal_strlit("Left");
            assert(l[2] == 'f' && l.last() == 't');
        },
        KeybdKey::UpKey => {
            reveal_strlit("Up");
            assert(l[1] == 'p' && l.last() == 'p');
        },
        KeybdKey::RightKey => {
            reveal_strlit("Right");
            assert(l[2] == 'g' && l.last() == 't');
        },
        KeybdKey::DownKey => {
            reveal_strlit("Down");
            assert(l[2] == 'w' && l.last() == 'n');
        },
        KeybdKey::InsertKey => {
            reveal_strlit("Insert");
            assert(l[3] == 'e' && l.last() == 't');
        },
        KeybdKey::DeleteKey => {
            reveal_strlit("Delete");
            assert(l[3] == 'e' && l.last() == 'e');
        },
        KeybdKey::Numrow0Key => {
            reveal_strlit("0");
            assert(l[0] == '0' && l.last() == '0');
        },
        KeybdKey::Numrow1Key => {
            reveal_strlit("1");
            assert(l[0] == '1' && l.last() == '1');
        },
        KeybdKey::Numrow2Key => {
            reveal_strlit("2");
            assert(l[0] == '2' && l.last() == '2');
        },
        KeybdKey::Numrow3Key => {
            reveal_strlit("3");
            assert(l[0] == '3' && l.last() == '3');
        },
        KeybdKey::Numrow4Key => {
            reveal_strlit("4");
            assert(l[0] == '4' && l.last() == '4');
        },
        KeybdKey::Numrow5Key => {
            reveal_strlit("5");
            assert(l[0] == '5' && l.last() == '5');
        },
        KeybdKey::Numrow6Key => {
            reveal_strlit("6");
            assert(l[0] == '6' && l.last() == '6');
        },
        KeybdKey::Numrow7Key => {
            reveal_strlit("7");
            assert(l[0] == '7' && l.last() == '7');
        },
        KeybdKey::Numrow8Key => {
            reveal_strlit("8");
            assert(l[0] == '8' && l.last() == '8');
        },
        KeybdKey::Numrow9Key => {
            reveal_strlit("9");
            assert(l[0] == '9' && l.last() == '9');
        },
        KeybdKey::AKey => {
            reveal_strlit("a");
            assert(l[0] == 'a' && l.last() == 'a');
        },
        KeybdKey::BKey => {
            reveal_strlit("b");
            assert(l[0] == 'b' && l.last() == 'b');
        },
        KeybdKey::CKey => {
            reveal_strlit("c");
            assert(l[0] == 'c' && l.last() == 'c');
        },
        KeybdKey::DKey => {
            reveal_strlit("d");
            assert(l[0] == 'd' && l.last() == 'd');
        },
        KeybdKey::EKey => {
            reveal_strlit("e");
            assert(l[0] == 'e' && l.last() == 'e');
        },
        KeybdKey::FKey => {
            reveal_strlit("f");
            assert(l[0] == 'f' && l.last() == 'f');
        },
        KeybdKey::GKey => {
            reveal_strlit("g");
            assert(l[0] == 'g' && l.last() == 'g');
        },
        KeybdKey::HKey => {
            reveal_strlit("h");
            assert(l[0] == 'h' && l.last() == 'h');
        },
        KeybdKey::IKey => {
            reveal_strlit("i");
            assert(l[0] == 'i' && l.last() == 'i');
        },
        KeybdKey::JKey => {
            reveal_strlit("j");
            assert(l[0] == 'j' && l.last() == 'j');
        },
        KeybdKey::KKey => {
            reveal_strlit("k");
            assert(l[0] == 'k' && l.last() == 'k');
        },
        KeybdKey::LKey => {
            reveal_strlit("l");
            assert(l[0] == 'l' && l.last() == 'l');
        },
        KeybdKey::MKey => {
            reveal_strlit("m");
            assert(l[0] == 'm' && l.last() == 'm');
        },
        KeybdKey::NKey => {
            reveal_strlit("n");
            assert(l[0] == 'n' && l.last() == 'n');
        },
        KeybdKey::OKey => {
            reveal_strlit("o");
            assert(l[0] == 'o' && l.last() == 'o');
        },
        KeybdKey::PKey => {
            reveal_strlit("p");
            assert(l[0] == 'p' && l.last() == 'p');
        },
        KeybdKey::QKey => {
            reveal_strlit("q");
            assert(l[0] == 'q' && l.last() == 'q');
        },
        KeybdKey::RKey => {
            reveal_strlit("r");
            assert(l[0] == 'r' && l.last() == 'r');
        },
        KeybdKey::SKey => {
            reveal_strlit("s");
            assert(l[0] == 's' && l.last() == 's');
        },
        KeybdKey::TKey => {
            reveal_strlit("t");
            assert(l[0] == 't' && l.last() == 't');
        },
        KeybdKey::UKey => {
            reveal_strlit("u");
            assert(l[0] == 'u' && l.last() == 'u');
        },
        KeybdKey::VKey => {
            reveal_strlit("v");
            assert(l[0] == 'v' && l.last() == 'v');
        },
        KeybdKey::WKey => {
            reveal_strlit("w");
            assert(l[0] == 'w' && l.last() == 'w');
        },
        KeybdKey::XKey => {
            reveal_strlit("x");
            assert(l[0] == 'x' && l.last() == 'x');
        },
        KeybdKey::YKey => {
            reveal_strlit("y");
            assert(l[0] == 'y' && l.last() == 'y');
        },
        KeybdKey::ZKey => {
            reveal_strlit("z");
            assert(l[0] == 'z' && l.last() == 'z');
        },
        KeybdKey::LSuper => {
            reveal_strlit("LeftSuper");
            assert(l[4] == 's' && l.last() == 'r');
        },
        KeybdKey::RSuper => {
            reveal_strlit("RightSuper");
            assert(l[5] == 's' && l.last() == 'r');
        },
        KeybdKey::Numpad0Key => {
            reveal_strlit("NumPad0");
            assert(l[3] == 'p' && l.last() == '0');
        },
        KeybdKey::Numpad1Key => {
            reveal_strlit("NumPad1");
            assert(l[3] == 'p' && l.last() == '1');
        },
        KeybdKey::Numpad2Key => {
            reveal_strlit("NumPad2");
            assert(l[3] == 'p' && l.last() == '2');
        },
        KeybdKey::Numpad3Key => {
            reveal_strlit("NumPad3");
            assert(l[3] == 'p' && l.last() == '3');
        },
        KeybdKey::Numpad4Key => {
            reveal_strlit("NumPad4");
            assert(l[3] == 'p' && l.last() == '4');
        },
        KeybdKey::Numpad5Key => {
            reveal_strlit("NumPad5");
            assert(l[3] == 'p' && l.last() == '5');
        },
        KeybdKey::Numpad6Key => {
            reveal_strlit("NumPad6");
            assert(l[3] == 'p' && l.last() == '6');
        },
        KeybdKey::Numpad7Key => {
            reveal_strlit("NumPad7");
            assert(l[3] == 'p' && l.last() == '7');
        },
        KeybdKey::Numpad8Key => {
            reveal_strlit("NumPad8");
            assert(l[3] == 'p' && l.last() == '8');
        },
        KeybdKey::Numpad9Key => {
            reveal_strlit("NumPad9");
            assert(l[3] == 'p' && l.last() == '9');
        },
        KeybdKey::F1Key => {
            reveal_strlit("F1");
            assert(l[1] == '1' && l.last() == '1');
        },
        KeybdKey::F2Key => {
            reveal_strlit("F2");
            assert(l[1] == '2' && l.last() == '2');
        },
        KeybdKey::F3Key => {
            reveal_strlit("F3");
            assert(l[1] == '3' && l.last() == '3');
        },
        KeybdKey::F4Key => {
            reveal_strlit("F4");
            assert(l[1] == '4' && l.last() == '4');
        },
        KeybdKey::F5Key => {
            reveal_strlit("F5");
            assert(l[1] == '5' && l.last() == '5');
        },
        KeybdKey::F6Key => {
            reveal_strlit("F6");
            assert(l[1] == '6' && l.last() == '6');
        },
        KeybdKey::F7Key => {
            reveal_strlit("F7");
            assert(l[1] == '7' && l.last() == '7');
        },
        KeybdKey::F8Key => {
            reveal_strlit("F8");
            assert(l[1] == '8' && l.last() == '8');
        },
        KeybdKey::F9Key => {
            reveal_strlit("F9");
            assert(l[1] == '9' && l.last() == '9');
        },
        KeybdKey::F10Key => {
            reveal_strlit("F10");
            assert(l[1] == '1' && l.last() == '0');
        },
        KeybdKey::F11Key => {
            reveal_strlit("F11");
            assert(l[1] == '1' && l.last() == '1');
        },
        KeybdKey::F12Key => {
            reveal_strlit("F12");
            assert(l[1] == '1' && l.last() == '2');
        },
        KeybdKey::F13Key => {
            reveal_strlit("F13");
            assert(l[1] == '1' && l.last() == '3');
        },
        KeybdKey::F14Key => {
            reveal_strlit("F14");
            assert(l[1] == '1' && l.last() == '4');
        },
        KeybdKey::F15Key => {
            reveal_strlit("F15");
            assert(l[1] == '1' && l.last() == '5');
        },
        KeybdKey::F16Key => {
            reveal_strlit("F16");
            assert(l[1] == '1' && l.last() == '6');
        },
        KeybdKey::F17Key => {
            reveal_strlit("F17");
            assert(l[1] == '1' && l.last() == '7');
        },
        KeybdKey::F18Key => {
            reveal_strlit("F18");
            assert(l[1] == '1' && l.last() == '8');
        },
        KeybdKey::F19Key => {
            reveal_strlit("F19");
            assert(l[1] == '1' && l.last() == '9');
        },
        KeybdKey::F20Key => {
            reveal_strlit("F20");
            assert(l[1] == '2' && l.last() == '0');
        },
        KeybdKey::F21Key => {
            reveal_strlit("F21");
            assert(l[1] == '2' && l.last() == '1');
        },
        KeybdKey::F22Key => {
            reveal_strlit("F22");
            assert(l[1] == '2' && l.last() == '2');
        },
        KeybdKey::F23Key => {
            reveal_strlit("F23");
            assert(l[1] == '2' && l.last() == '3');
        },
        KeybdKey::F24Key => {
            reveal_strlit("F24");
            assert(l[1] == '2' && l.last() == '4');
        },
        KeybdKey::NumLockKey => {
            reveal_strlit("NumLock");
            assert(l[3] == 'l' && l.last() == 'k');
        },
        KeybdKey::ScrollLockKey => {
            reveal_strlit("ScrollLock");
            assert(l[5] == 'l' && l.last() == 'k');
        },
        KeybdKey::CapsLockKey => {
            reveal_strlit("CapsLock");
            assert(l[4] == 'l' && l.last() == 'k');
        },
        KeybdKey::LShiftKey => {
            reveal_strlit("LeftShift");
            assert(l[4] == 's' && l.last() == 't');
        },
        KeybdKey::RShiftKey => {
            reveal_strlit("RightShift");
            assert(l[5] == 's' && l.last() == 't');
        },
        KeybdKey::LControlKey => {
            reveal_strlit("LeftControl");
            assert(l[5] == 'o' && l.last() == 'l');
        },
        KeybdKey::RControlKey => {
            reveal_strlit("RightControl");
            assert(l[6] == 'o' && l.last() == 'l');
        },
        KeybdKey::LAltKey => {
            reveal_strlit("LeftAlt");
            assert(l[3] == 't' && l.last() == 't');
        },
        KeybdKey::RAltKey => {
            reveal_strlit("RightAlt");
            assert(l[4] == 't' && l.last() == 't');
        },
        KeybdKey::BrowserBackKey => {
            reveal_strlit("Back");
            assert(l[2] == 'c' && l.last() == 'k');
        },
        KeybdKey::BrowserForwardKey => {
            reveal_strlit("Forward");
            assert(l[3] == 'w' && l.last() == 'd');
        },
        KeybdKey::BrowserRefreshKey => {
            reveal_strlit("Refresh");
            assert(l[3] == 'r' && l.last() == 'h');
        },
        KeybdKey::VolumeMuteKey => {
            reveal_strlit("VolumeMute");
            assert(l[5] == 'e' && l.last() == 'e');
        },
        KeybdKey::VolumeDownKey => {
            reveal_strlit("VolumeDown");
            assert(l[5] == 'e' && l.last() == 'n');
        },
        KeybdKey::VolumeUpKey => {
            reveal_strlit("VolumeUp");
            assert(l[4] == 'm' && l.last() == 'p');
        },
        KeybdKey::MediaNextTrackKey => {
            reveal_strlit("MediaNext");
            assert(l[4] == 'a' && l.last() == 't');
        },
        KeybdKey::MediaPrevTrackKey => {
            reveal_strlit("MediaPrevious");
            assert(l[6] == 'r' && l.last() == 's');
        },
        KeybdKey::MediaStopKey => {
            reveal_strlit("MediaStop");
            assert(l[4] == 'a' && l.last() == 'p');
        },
        KeybdKey::MediaPlayPauseKey => {
            reveal_strlit("MediaPlay");
            assert(l[4] == 'a' && l.last() == 'y');
        },
        KeybdKey::BackquoteKey => {
            reveal_strlit("Backquote");
            assert(l[4] == 'q' && l.last() == 'e');
        },
        KeybdKey::SlashKey => {
            reveal_strlit("Slash");
            assert(l[2] == 'a' && l.last() == 'h');
        },
        KeybdKey::BackslashKey => {
            reveal_strlit("Backslash");
            assert(l[4] == 's' && l.last() == 'h');
        },
        KeybdKey::CommaKey => {
            reveal_strlit("Comma");
            assert(l[2] == 'm' && l.last() == 'a');
        },
        KeybdKey::PeriodKey => {
            reveal_strlit("Period");
            assert(l[3] == 'i' && l.last() == 'd');
        },
        KeybdKey::MinusKey => {
            reveal_strlit("Minus");
            assert(l[2] == 'n' && l.last() == 's');
        },
        KeybdKey::QuoteKey => {
            reveal_strlit("QuoteKey");
            assert(l[4] == 'e' && l.last() == 'y');
        },
        KeybdKey::SemicolonKey => {
            reveal_strlit("Semicolon");
            assert(l[4] == 'c' && l.last() == 'n');
        },
        KeybdKey::LBracketKey => {
            reveal_strlit("LeftBracket");
            assert(l[5] == 'r' && l.last() == 't');
        },
        KeybdKey::RBracketKey => {
            reveal_strlit("RightBracket");
            assert(l[6] == 'r' && l.last() == 't');
        },
        KeybdKey::EqualKey => {
            reveal_strlit("Equal");
            assert(l[2] == 'u' && l.last() == 'l');
        },
        KeybdKey::OtherKey(_) => {},
    }
}

/// The lower-case name of a named button leads the lookup back to that button.
proof fn lemma_named_mouse_button(b: MouseButton)
    requires
        b.is_named(),
    ensures
        named_mouse_button(fold_case(b.name())) == Some(b),
{
    let l = fold_case(b.name());
    match b {
        MouseButton::LeftButton => {
            reveal_strlit("LeftClick");
            assert(l[4] == 'c' && l.last() == 'k');
        },
        MouseButton::MiddleButton => {
            reveal_strlit("MiddleClick");
            assert(l[5] == 'e' && l.last() == 'k');
        },
        MouseButton::RightButton => {
            reveal_strlit("RightClick");
            assert(l[5] == 'c' && l.last() == 'k');
        },
        MouseButton::X1Button => {
            reveal_strlit("MouseBackward");
            assert(l[6] == 'a' && l.last() == 'd');
        },
        MouseButton::X2Button => {
            reveal_strlit("MouseForward");
            assert(l[6] == 'o' && l.last() == 'd');
        },
        MouseButton::MousewheelUp => {
            reveal_strlit("MousewheelUp");
            assert(l[6] == 'h' && l.last() == 'p');
        },
        MouseButton::MousewheelDown => {
            reveal_strlit("MousewheelDown");
            assert(l[7] == 'e' && l.last() == 'n');
        },
        MouseButton::OtherButton(_) => {},
    }
}

} // verus!

verus! {

/// The lower-case form of `prefix`, the digits of `code` and `)`, seen as the
/// wrapped form of that number.
proof fn lemma_wrapped_decimal(prefix: Seq<char>, code: nat)
    ensures
        ({
            let l = fold_case(prefix + decimal(code) + ")"@);
            let p = fold_case(prefix);
            &&& l == p + decimal(code) + ")"@
            &&& wraps_digits(l, p)
            &&& wrapped_value(l, p) == code
        }),
{
    reveal_strlit(")");
    lemma_decimal(code);
    let d = decimal(code);
    let p = fold_case(prefix);
    lemma_lower_concat(prefix + d, ")"@);
    lemma_lower_concat(prefix, d);
    lemma_lower_unchanged(d);
    lemma_lower_unchanged(")"@);
    let l = p + d + ")"@;
    assert(l.subrange(0, p.len() as int) =~= p);
    assert(l.subrange(p.len() as int, l.len() - 1) =~= d);
    assert forall|i: int| p.len() <= i < l.len() - 1 implies is_digit(#[trigger] l[i]) by {
        assert(l[i] == d[i - p.len()]);
    }
}

/// Every key's canonical name reads back as that key, whatever the case of
/// its letters; for `OtherKey(n)` too, for every `n`.
pub proof fn lemma_keybd_name_round_trip(k: KeybdKey, s: Seq<char>)
    requires
        fold_case(s) == fold_case(k.name()),
    ensures
        keybd_key_from_name(s) == Some(k),
{
    match k {
        KeybdKey::OtherKey(code) => {
            let l = fold_case(s);
            lemma_wrapped_decimal("OtherKey("@, code as nat);
            reveal_strlit("LeftWindows");
            reveal_strlit("LeftCommand");
            reveal_strlit("RightWindows");
            reveal_strlit("RightCommand");
            assert(l.last() == ')');
            assert(fold_case("LeftWindows"@).last() == 's');
            assert(fold_case("LeftCommand"@).last() == 'd');
            assert(fold_case("RightWindows"@).last() == 's');
            assert(fold_case("RightCommand"@).last() == 'd');
        },
        _ => lemma_named_keybd_key(k),
    }
}

/// Every button's canonical name reads back as that button, whatever the case
/// of its letters; for `OtherButton(n)` too, for every `n`.
pub proof fn lemma_mouse_name_round_trip(b: MouseButton, s: Seq<char>)
    requires
        fold_case(s) == fold_case(b.name()),
    ensures
        mouse_button_from_name(s) == Some(b),
{
    match b {
        MouseButton::OtherButton(code) => {
            let l = fold_case(s);
            lemma_wrapped_decimal("MouseButton("@, code as nat);
            assert(l.last() == ')');
        },
        _ => lemma_named_mouse_button(b),
    }
}

} // verus!

verus! {

impl core::str::FromStr for KeybdKey {
    type Err = ParseError;

    fn from_str(s: &str) -> Result<KeybdKey, ParseError> {
        KeybdKey::from_str(s)
    }
}

impl core::str::FromStr for MouseButton {
    type Err = ParseError;

    fn from_str(s: &str) -> Result<MouseButton, ParseError> {
        MouseButton::from_str(s)
    }
}

} // verus!

verus! {

/// The lookup of a folded name, stated directly: it finds `k` exactly when
/// `k` is a named key and `l` is its folded canonical name.
pub proof fn lemma_named_keybd_key_exact(l: Seq<char>, k: KeybdKey)
    ensures
        named_keybd_key(l) == Some(k) <==> (k.is_named() && l == fold_case(k.name())),
{
    if k.is_named() && l == fold_case(k.name()) {
        lemma_named_keybd_key(k);
    }
}

/// The lookup of a folded name, stated directly: it finds `b` exactly when
/// `b` is a named button and `l` is its folded canonical name.
pub proof fn lemma_named_mouse_button_exact(l: Seq<char>, b: MouseButton)
    ensures
        named_mouse_button(l) == Some(b) <==> (b.is_named() && l == fold_case(b.name())),
{
    if b.is_named() && l == fold_case(b.name()) {
        lemma_named_mouse_button(b);
    }
}

} // verus!
