//! Native codes: X11 keysyms and buttons, Linux input codes, Windows
//! virtual keys and low-level hook messages.

use vstd::prelude::*;
use crate::keys::{KeybdKey, MouseButton};

verus! {

/// The X11 keysym of a key; `OtherKey` carries its keysym.
pub open spec fn keysym_of(k: KeybdKey) -> u64 {
    match k {
        KeybdKey::BackspaceKey => 0xFF08,
        KeybdKey::TabKey => 0xFF09,
        KeybdKey::EnterKey => 0xFF8D,
        KeybdKey::EscapeKey => 0xFF1B,
        KeybdKey::SpaceKey => 0x20,
        KeybdKey::PageUpKey => 0xFF55,
        KeybdKey::PageDownKey => 0xFF56,
        KeybdKey::EndKey => 0xFF57,
        KeybdKey::HomeKey => 0xFF50,
        KeybdKey::LeftKey => 0xFF51,
        KeybdKey::UpKey => 0xFF52,
        KeybdKey::RightKey => 0xFF53,
        KeybdKey::DownKey => 0xFF54,
        KeybdKey::InsertKey => 0xFF63,
        KeybdKey::DeleteKey => 0xFF9F,
        KeybdKey::Numrow0Key => 0x30,
        KeybdKey::Numrow1Key => 0x31,
        KeybdKey::Numrow2Key => 0x32,
        KeybdKey::Numrow3Key => 0x33,
        KeybdKey::Numrow4Key => 0x34,
        KeybdKey::Numrow5Key => 0x35,
        KeybdKey::Numrow6Key => 0x36,
        KeybdKey::Numrow7Key => 0x37,
        KeybdKey::Numrow8Key => 0x38,
        KeybdKey::Numrow9Key => 0x39,
        KeybdKey::AKey => 0x41,
        KeybdKey::BKey => 0x42,
        KeybdKey::CKey => 0x43,
        KeybdKey::DKey => 0x44,
        KeybdKey::EKey => 0x45,
        KeybdKey::FKey => 0x46,
        KeybdKey::GKey => 0x47,
        KeybdKey::HKey => 0x48,
        KeybdKey::IKey => 0x49,
        KeybdKey::JKey => 0x4A,
        KeybdKey::KKey => 0x4B,
        KeybdKey::LKey => 0x4C,
        KeybdKey::MKey => 0x4D,
        KeybdKey::NKey => 0x4E,
        KeybdKey::OKey => 0x4F,
        KeybdKey::PKey => 0x50,
        KeybdKey::QKey => 0x51,
        KeybdKey::RKey => 0x52,
        KeybdKey::SKey => 0x53,
        KeybdKey::TKey => 0x54,
        KeybdKey::UKey => 0x55,
        KeybdKey::VKey => 0x56,
        KeybdKey::WKey => 0x57,
        KeybdKey::XKey => 0x58,
        KeybdKey::YKey => 0x59,
        KeybdKey::ZKey => 0x5A,
        KeybdKey::LSuper => 0xFFEB,
        KeybdKey::RSuper => 0xFFEC,
        KeybdKey::Numpad0Key => 0xFFB0,
        KeybdKey::Numpad1Key => 0xFFB1,
        KeybdKey::Numpad2Key => 0xFFB2,
        KeybdKey::Numpad3Key => 0xFFB3,
        KeybdKey::Numpad4Key => 0xFFB4,
        KeybdKey::Numpad5Key => 0xFFB5,
        KeybdKey::Numpad6Key => 0xFFB6,
        KeybdKey::Numpad7Key => 0xFFB7,
        KeybdKey::Numpad8Key => 0xFFB8,
        KeybdKey::Numpad9Key => 0xFFB9,
        KeybdKey::F1Key => 0xFFBE,
        KeybdKey::F2Key => 0xFFBF,
        KeybdKey::F3Key => 0xFFC0,
        KeybdKey::F4Key => 0xFFC1,
        KeybdKey::F5Key => 0xFFC2,
        KeybdKey::F6Key => 0xFFC3,
        KeybdKey::F7Key => 0xFFC4,
        KeybdKey::F8Key => 0xFFC5,
        KeybdKey::F9Key => 0xFFC6,
        KeybdKey::F10Key => 0xFFC7,
        KeybdKey::F11Key => 0xFFC8,
        KeybdKey::F12Key => 0xFFC9,
        KeybdKey::F13Key => 0xFFCA,
        KeybdKey::F14Key => 0xFFCB,
        KeybdKey::F15Key => 0xFFCC,
        KeybdKey::F16Key => 0xFFCD,
        KeybdKey::F17Key => 0xFFCE,
        KeybdKey::F18Key => 0xFFCF,
        KeybdKey::F19Key => 0xFFD0,
        KeybdKey::F20Key => 0xFFD1,
        KeybdKey::F21Key => 0xFFD2,
        KeybdKey::F22Key => 0xFFD3,
        KeybdKey::F23Key => 0xFFD4,
        KeybdKey::F24Key => 0xFFD5,
        KeybdKey::NumLockKey => 0xFF7F,
        KeybdKey::ScrollLockKey => 0xFF14,
        KeybdKey::CapsLockKey => 0xFFE5,
        KeybdKey::LShiftKey => 0xFFE1,
        KeybdKey::RShiftKey => 0xFFE2,
        KeybdKey::LControlKey => 0xFFE3,
        KeybdKey::RControlKey => 0xFFE4,
        KeybdKey::LAltKey => 0xFFE9,
        KeybdKey::RAltKey => 0xFFEA,
        KeybdKey::BrowserBackKey => 0x1008FF26,
        KeybdKey::BrowserForwardKey => 0x1008FF27,
        KeybdKey::BrowserRefreshKey => 0x1008FF29,
        KeybdKey::VolumeMuteKey => 0x1008FF12,
        KeybdKey::VolumeDownKey => 0x1008FF11,
        KeybdKey::VolumeUpKey => 0x1008FF13,
        KeybdKey::MediaNextTrackKey => 0x1008FF17,
        KeybdKey::MediaPrevTrackKey => 0x1008FF16,
        KeybdKey::MediaStopKey => 0x1008FF15,
        KeybdKey::MediaPlayPauseKey => 0x1008FF14,
        KeybdKey::BackquoteKey => 0x60,
        KeybdKey::SlashKey => 0x2F,
        KeybdKey::BackslashKey => 0x5C,
        KeybdKey::CommaKey => 0x2C,
        KeybdKey::PeriodKey => 0x2E,
        KeybdKey::MinusKey => 0x2D,
        KeybdKey::QuoteKey => 0x27,
        KeybdKey::SemicolonKey => 0x3B,
        KeybdKey::LBracketKey => 0x5B,
        KeybdKey::RBracketKey => 0x5D,
        KeybdKey::EqualKey => 0x3D,
        KeybdKey::OtherKey(code) => code,
    }
}

/// The key of an X11 keysym; a keysym without a named key gives `OtherKey`.
pub open spec fn key_of_keysym(code: u64) -> KeybdKey {
    match code {
        0xFF08 => KeybdKey::BackspaceKey,
        0xFF09 => KeybdKey::TabKey,
        0xFF8D => KeybdKey::EnterKey,
        0xFF1B => KeybdKey::EscapeKey,
        0x20 => KeybdKey::SpaceKey,
        0xFF55 => KeybdKey::PageUpKey,
        0xFF56 => KeybdKey::PageDownKey,
        0xFF57 => KeybdKey::EndKey,
        0xFF50 => KeybdKey::HomeKey,
        0xFF51 => KeybdKey::LeftKey,
        0xFF52 => KeybdKey::UpKey,
        0xFF53 => KeybdKey::RightKey,
        0xFF54 => KeybdKey::DownKey,
        0xFF63 => KeybdKey::InsertKey,
        0xFF9F => KeybdKey::DeleteKey,
        0x30 => KeybdKey::Numrow0Key,
        0x31 => KeybdKey::Numrow1Key,
        0x32 => KeybdKey::Numrow2Key,
        0x33 => KeybdKey::Numrow3Key,
        0x34 => KeybdKey::Numrow4Key,
        0x35 => KeybdKey::Numrow5Key,
        0x36 => KeybdKey::Numrow6Key,
        0x37 => KeybdKey::Numrow7Key,
        0x38 => KeybdKey::Numrow8Key,
        0x39 => KeybdKey::Numrow9Key,
        0x41 => KeybdKey::AKey,
        0x42 => KeybdKey::BKey,
        0x43 => KeybdKey::CKey,
        0x44 => KeybdKey::DKey,
        0x45 => KeybdKey::EKey,
        0x46 => KeybdKey::FKey,
        0x47 => KeybdKey::GKey,
        0x48 => KeybdKey::HKey,
        0x49 => KeybdKey::IKey,
        0x4A => KeybdKey::JKey,
        0x4B => KeybdKey::KKey,
        0x4C => KeybdKey::LKey,
        0x4D => KeybdKey::MKey,
        0x4E => KeybdKey::NKey,
        0x4F => KeybdKey::OKey,
        0x50 => KeybdKey::PKey,
        0x51 => KeybdKey::QKey,
        0x52 => KeybdKey::RKey,
        0x53 => KeybdKey::SKey,
        0x54 => KeybdKey::TKey,
        0x55 => KeybdKey::UKey,
        0x56 => KeybdKey::VKey,
        0x57 => KeybdKey::WKey,
        0x58 => KeybdKey::XKey,
        0x59 => KeybdKey::YKey,
        0x5A => KeybdKey::ZKey,
        0xFFEB => KeybdKey::LSuper,
        0xFFEC => KeybdKey::RSuper,
        0xFFB0 => KeybdKey::Numpad0Key,
        0xFFB1 => KeybdKey::Numpad1Key,
        0xFFB2 => KeybdKey::Numpad2Key,
        0xFFB3 => KeybdKey::Numpad3Key,
        0xFFB4 => KeybdKey::Numpad4Key,
        0xFFB5 => KeybdKey::Numpad5Key,
        0xFFB6 => KeybdKey::Numpad6Key,
        0xFFB7 => KeybdKey::Numpad7Key,
        0xFFB8 => KeybdKey::Numpad8Key,
        0xFFB9 => KeybdKey::Numpad9Key,
        0xFFBE => KeybdKey::F1Key,
        0xFFBF => KeybdKey::F2Key,
        0xFFC0 => KeybdKey::F3Key,
        0xFFC1 => KeybdKey::F4Key,
        0xFFC2 => KeybdKey::F5Key,
        0xFFC3 => KeybdKey::F6Key,
        0xFFC4 => KeybdKey::F7Key,
        0xFFC5 => KeybdKey::F8Key,
        0xFFC6 => KeybdKey::F9Key,
        0xFFC7 => KeybdKey::F10Key,
        0xFFC8 => KeybdKey::F11Key,
        0xFFC9 => KeybdKey::F12Key,
        0xFFCA => KeybdKey::F13Key,
        0xFFCB => KeybdKey::F14Key,
        0xFFCC => KeybdKey::F15Key,
        0xFFCD => KeybdKey::F16Key,
        0xFFCE => KeybdKey::F17Key,
        0xFFCF => KeybdKey::F18Key,
        0xFFD0 => KeybdKey::F19Key,
        0xFFD1 => KeybdKey::F20Key,
        0xFFD2 => KeybdKey::F21Key,
        0xFFD3 => KeybdKey::F22Key,
        0xFFD4 => KeybdKey::F23Key,
        0xFFD5 => KeybdKey::F24Key,
        0xFF7F => KeybdKey::NumLockKey,
        0xFF14 => KeybdKey::ScrollLockKey,
        0xFFE5 => KeybdKey::CapsLockKey,
        0xFFE1 => KeybdKey::LShiftKey,
        0xFFE2 => KeybdKey::RShiftKey,
        0xFFE3 => KeybdKey::LControlKey,
        0xFFE4 => KeybdKey::RControlKey,
        0xFFE9 => KeybdKey::LAltKey,
        0xFFEA => KeybdKey::RAltKey,
        0x1008FF26 => KeybdKey::BrowserBackKey,
        0x1008FF27 => KeybdKey::BrowserForwardKey,
        0x1008FF29 => KeybdKey::BrowserRefreshKey,
        0x1008FF12 => KeybdKey::VolumeMuteKey,
        0x1008FF11 => KeybdKey::VolumeDownKey,
        0x1008FF13 => KeybdKey::VolumeUpKey,
        0x1008FF17 => KeybdKey::MediaNextTrackKey,
        0x1008FF16 => KeybdKey::MediaPrevTrackKey,
        0x1008FF15 => KeybdKey::MediaStopKey,
        0x1008FF14 => KeybdKey::MediaPlayPauseKey,
        0x60 => KeybdKey::BackquoteKey,
        0x2F => KeybdKey::SlashKey,
        0x5C => KeybdKey::BackslashKey,
        0x2C => KeybdKey::CommaKey,
        0x2E => KeybdKey::PeriodKey,
        0x2D => KeybdKey::MinusKey,
        0x27 => KeybdKey::QuoteKey,
        0x3B => KeybdKey::SemicolonKey,
        0x5B => KeybdKey::LBracketKey,
        0x5D => KeybdKey::RBracketKey,
        0x3D => KeybdKey::EqualKey,
        _ => KeybdKey::OtherKey(code),
    }
}

impl KeybdKey {
    /// The X11 keysym of this key.
    pub fn keysym(self) -> (r: u64)
        ensures
            r == keysym_of(self),
    {
        match self {
            KeybdKey::BackspaceKey => 0xFF08,
            KeybdKey::TabKey => 0xFF09,
            KeybdKey::EnterKey => 0xFF8D,
            KeybdKey::EscapeKey => 0xFF1B,
            KeybdKey::SpaceKey => 0x20,
            KeybdKey::PageUpKey => 0xFF55,
            KeybdKey::PageDownKey => 0xFF56,
            KeybdKey::EndKey => 0xFF57,
            KeybdKey::HomeKey => 0xFF50,
            KeybdKey::LeftKey => 0xFF51,
            KeybdKey::UpKey => 0xFF52,
            KeybdKey::RightKey => 0xFF53,
            KeybdKey::DownKey => 0xFF54,
            KeybdKey::InsertKey => 0xFF63,
            KeybdKey::DeleteKey => 0xFF9F,
            KeybdKey::Numrow0Key => 0x30,
            KeybdKey::Numrow1Key => 0x31,
            KeybdKey::Numrow2Key => 0x32,
            KeybdKey::Numrow3Key => 0x33,
            KeybdKey::Numrow4Key => 0x34,
            KeybdKey::Numrow5Key => 0x35,
            KeybdKey::Numrow6Key => 0x36,
            KeybdKey::Numrow7Key => 0x37,
            KeybdKey::Numrow8Key => 0x38,
            KeybdKey::Numrow9Key => 0x39,
            KeybdKey::AKey => 0x41,
            KeybdKey::BKey => 0x42,
            KeybdKey::CKey => 0x43,
            KeybdKey::DKey => 0x44,
            KeybdKey::EKey => 0x45,
            KeybdKey::FKey => 0x46,
            KeybdKey::GKey => 0x47,
            KeybdKey::HKey => 0x48,
            KeybdKey::IKey => 0x49,
            KeybdKey::JKey => 0x4A,
            KeybdKey::KKey => 0x4B,
            KeybdKey::LKey => 0x4C,
            KeybdKey::MKey => 0x4D,
            KeybdKey::NKey => 0x4E,
            KeybdKey::OKey => 0x4F,
            KeybdKey::PKey => 0x50,
            KeybdKey::QKey => 0x51,
            KeybdKey::RKey => 0x52,
            KeybdKey::SKey => 0x53,
            KeybdKey::TKey => 0x54,
            KeybdKey::UKey => 0x55,
            KeybdKey::VKey => 0x56,
            KeybdKey::WKey => 0x57,
            KeybdKey::XKey => 0x58,
            KeybdKey::YKey => 0x59,
            KeybdKey::ZKey => 0x5A,
            KeybdKey::LSuper => 0xFFEB,
            KeybdKey::RSuper => 0xFFEC,
            KeybdKey::Numpad0Key => 0xFFB0,
            KeybdKey::Numpad1Key => 0xFFB1,
            KeybdKey::Numpad2Key => 0xFFB2,
            KeybdKey::Numpad3Key => 0xFFB3,
            KeybdKey::Numpad4Key => 0xFFB4,
            KeybdKey::Numpad5Key => 0xFFB5,
            KeybdKey::Numpad6Key => 0xFFB6,
            KeybdKey::Numpad7Key => 0xFFB7,
            KeybdKey::Numpad8Key => 0xFFB8,
            KeybdKey::Numpad9Key => 0xFFB9,
            KeybdKey::F1Key => 0xFFBE,
            KeybdKey::F2Key => 0xFFBF,
            KeybdKey::F3Key => 0xFFC0,
            KeybdKey::F4Key => 0xFFC1,
            KeybdKey::F5Key => 0xFFC2,
            KeybdKey::F6Key => 0xFFC3,
            KeybdKey::F7Key => 0xFFC4,
            KeybdKey::F8Key => 0xFFC5,
            KeybdKey::F9Key => 0xFFC6,
            KeybdKey::F10Key => 0xFFC7,
            KeybdKey::F11Key => 0xFFC8,
            KeybdKey::F12Key => 0xFFC9,
            KeybdKey::F13Key => 0xFFCA,
            KeybdKey::F14Key => 0xFFCB,
            KeybdKey::F15Key => 0xFFCC,
            KeybdKey::F16Key => 0xFFCD,
            KeybdKey::F17Key => 0xFFCE,
            KeybdKey::F18Key => 0xFFCF,
            KeybdKey::F19Key => 0xFFD0,
            KeybdKey::F20Key => 0xFFD1,
            KeybdKey::F21Key => 0xFFD2,
            KeybdKey::F22Key => 0xFFD3,
            KeybdKey::F23Key => 0xFFD4,
            KeybdKey::F24Key => 0xFFD5,
            KeybdKey::NumLockKey => 0xFF7F,
            KeybdKey::ScrollLockKey => 0xFF14,
            KeybdKey::CapsLockKey => 0xFFE5,
            KeybdKey::LShiftKey => 0xFFE1,
            KeybdKey::RShiftKey => 0xFFE2,
            KeybdKey::LControlKey => 0xFFE3,
            KeybdKey::RControlKey => 0xFFE4,
            KeybdKey::LAltKey => 0xFFE9,
            KeybdKey::RAltKey => 0xFFEA,
            KeybdKey::BrowserBackKey => 0x1008FF26,
            KeybdKey::BrowserForwardKey => 0x1008FF27,
            KeybdKey::BrowserRefreshKey => 0x1008FF29,
            KeybdKey::VolumeMuteKey => 0x1008FF12,
            KeybdKey::VolumeDownKey => 0x1008FF11,
            KeybdKey::VolumeUpKey => 0x1008FF13,
            KeybdKey::MediaNextTrackKey => 0x1008FF17,
            KeybdKey::MediaPrevTrackKey => 0x1008FF16,
            KeybdKey::MediaStopKey => 0x1008FF15,
            KeybdKey::MediaPlayPauseKey => 0x1008FF14,
            KeybdKey::BackquoteKey => 0x60,
            KeybdKey::SlashKey => 0x2F,
            KeybdKey::BackslashKey => 0x5C,
            KeybdKey::CommaKey => 0x2C,
            KeybdKey::PeriodKey => 0x2E,
            KeybdKey::MinusKey => 0x2D,
            KeybdKey::QuoteKey => 0x27,
            KeybdKey::SemicolonKey => 0x3B,
            KeybdKey::LBracketKey => 0x5B,
            KeybdKey::RBracketKey => 0x5D,
            KeybdKey::EqualKey => 0x3D,
            KeybdKey::OtherKey(code) => code,
        }
    }

    /// The key of an X11 keysym.
    pub fn from_keysym(code: u64) -> (r: KeybdKey)
        ensures
            r == key_of_keysym(code),
    {
        match code {
            0xFF08 => KeybdKey::BackspaceKey,
            0xFF09 => KeybdKey::TabKey,
            0xFF8D => KeybdKey::EnterKey,
            0xFF1B => KeybdKey::EscapeKey,
            0x20 => KeybdKey::SpaceKey,
            0xFF55 => KeybdKey::PageUpKey,
            0xFF56 => KeybdKey::PageDownKey,
            0xFF57 => KeybdKey::EndKey,
            0xFF50 => KeybdKey::HomeKey,
            0xFF51 => KeybdKey::LeftKey,
            0xFF52 => KeybdKey::UpKey,
            0xFF53 => KeybdKey::RightKey,
            0xFF54 => KeybdKey::DownKey,
            0xFF63 => KeybdKey::InsertKey,
            0xFF9F => KeybdKey::DeleteKey,
            0x30 => KeybdKey::Numrow0Key,
            0x31 => KeybdKey::Numrow1Key,
            0x32 => KeybdKey::Numrow2Key,
            0x33 => KeybdKey::Numrow3Key,
            0x34 => KeybdKey::Numrow4Key,
            0x35 => KeybdKey::Numrow5Key,
            0x36 => KeybdKey::Numrow6Key,
            0x37 => KeybdKey::Numrow7Key,
            0x38 => KeybdKey::Numrow8Key,
            0x39 => KeybdKey::Numrow9Key,
            0x41 => KeybdKey::AKey,
            0x42 => KeybdKey::BKey,
            0x43 => KeybdKey::CKey,
            0x44 => KeybdKey::DKey,
            0x45 => KeybdKey::EKey,
            0x46 => KeybdKey::FKey,
            0x47 => KeybdKey::GKey,
            0x48 => KeybdKey::HKey,
            0x49 => KeybdKey::IKey,
            0x4A => KeybdKey::JKey,
            0x4B => KeybdKey::KKey,
            0x4C => KeybdKey::LKey,
            0x4D => KeybdKey::MKey,
            0x4E => KeybdKey::NKey,
            0x4F => KeybdKey::OKey,
            0x50 => KeybdKey::PKey,
            0x51 => KeybdKey::QKey,
            0x52 => KeybdKey::RKey,
            0x53 => KeybdKey::SKey,
            0x54 => KeybdKey::TKey,
            0x55 => KeybdKey::UKey,
            0x56 => KeybdKey::VKey,
            0x57 => KeybdKey::WKey,
            0x58 => KeybdKey::XKey,
            0x59 => KeybdKey::YKey,
            0x5A => KeybdKey::ZKey,
            0xFFEB => KeybdKey::LSuper,
            0xFFEC => KeybdKey::RSuper,
            0xFFB0 => KeybdKey::Numpad0Key,
            0xFFB1 => KeybdKey::Numpad1Key,
            0xFFB2 => KeybdKey::Numpad2Key,
            0xFFB3 => KeybdKey::Numpad3Key,
            0xFFB4 => KeybdKey::Numpad4Key,
            0xFFB5 => KeybdKey::Numpad5Key,
            0xFFB6 => KeybdKey::Numpad6Key,
            0xFFB7 => KeybdKey::Numpad7Key,
            0xFFB8 => KeybdKey::Numpad8Key,
            0xFFB9 => KeybdKey::Numpad9Key,
            0xFFBE => KeybdKey::F1Key,
            0xFFBF => KeybdKey::F2Key,
            0xFFC0 => KeybdKey::F3Key,
            0xFFC1 => KeybdKey::F4Key,
            0xFFC2 => KeybdKey::F5Key,
            0xFFC3 => KeybdKey::F6Key,
            0xFFC4 => KeybdKey::F7Key,
            0xFFC5 => KeybdKey::F8Key,
            0xFFC6 => KeybdKey::F9Key,
            0xFFC7 => KeybdKey::F10Key,
            0xFFC8 => KeybdKey::F11Key,
            0xFFC9 => KeybdKey::F12Key,
            0xFFCA => KeybdKey::F13Key,
            0xFFCB => KeybdKey::F14Key,
            0xFFCC => KeybdKey::F15Key,
            0xFFCD => KeybdKey::F16Key,
            0xFFCE => KeybdKey::F17Key,
            0xFFCF => KeybdKey::F18Key,
            0xFFD0 => KeybdKey::F19Key,
            0xFFD1 => KeybdKey::F20Key,
            0xFFD2 => KeybdKey::F21Key,
            0xFFD3 => KeybdKey::F22Key,
            0xFFD4 => KeybdKey::F23Key,
            0xFFD5 => KeybdKey::F24Key,
            0xFF7F => KeybdKey::NumLockKey,
            0xFF14 => KeybdKey::ScrollLockKey,
            0xFFE5 => KeybdKey::CapsLockKey,
            0xFFE1 => KeybdKey::LShiftKey,
            0xFFE2 => KeybdKey::RShiftKey,
            0xFFE3 => KeybdKey::LControlKey,
            0xFFE4 => KeybdKey::RControlKey,
            0xFFE9 => KeybdKey::LAltKey,
            0xFFEA => KeybdKey::RAltKey,
            0x1008FF26 => KeybdKey::BrowserBackKey,
            0x1008FF27 => KeybdKey::BrowserForwardKey,
            0x1008FF29 => KeybdKey::BrowserRefreshKey,
            0x1008FF12 => KeybdKey::VolumeMuteKey,
            0x1008FF11 => KeybdKey::VolumeDownKey,
            0x1008FF13 => KeybdKey::VolumeUpKey,
            0x1008FF17 => KeybdKey::MediaNextTrackKey,
            0x1008FF16 => KeybdKey::MediaPrevTrackKey,
            0x1008FF15 => KeybdKey::MediaStopKey,
            0x1008FF14 => KeybdKey::MediaPlayPauseKey,
            0x60 => KeybdKey::BackquoteKey,
            0x2F => KeybdKey::SlashKey,
            0x5C => KeybdKey::BackslashKey,
            0x2C => KeybdKey::CommaKey,
            0x2E => KeybdKey::PeriodKey,
            0x2D => KeybdKey::MinusKey,
            0x27 => KeybdKey::QuoteKey,
            0x3B => KeybdKey::SemicolonKey,
            0x5B => KeybdKey::LBracketKey,
            0x5D => KeybdKey::RBracketKey,
            0x3D => KeybdKey::EqualKey,
            _ => KeybdKey::OtherKey(code),
        }
    }
}

/// Reading a keysym back gives the keysym again, for every keysym.
pub proof fn lemma_keysym_of_key_of_keysym(code: u64)
    ensures
        keysym_of(key_of_keysym(code)) == code,
{
}

/// A named key's keysym reads back as that key.
pub proof fn lemma_key_of_keysym_of(k: KeybdKey)
    requires
        k.is_named(),
    ensures
        key_of_keysym(keysym_of(k)) == k,
{
}

} // verus!

verus! {

/// The X11 button number of a mouse button; the wheel directions are the
/// buttons the X server reports for wheel clicks.
pub open spec fn x11_button_of(b: MouseButton) -> u32 {
    match b {
        MouseButton::LeftButton => 1,
        MouseButton::MiddleButton => 2,
        MouseButton::RightButton => 3,
        MouseButton::MousewheelUp => 4,
        MouseButton::MousewheelDown => 5,
        MouseButton::X1Button => 8,
        MouseButton::X2Button => 9,
        MouseButton::OtherButton(code) => code,
    }
}

/// The mouse button of an X11 button number.
pub open spec fn button_of_x11(code: u32) -> MouseButton {
    match code {
        1 => MouseButton::LeftButton,
        2 => MouseButton::MiddleButton,
        3 => MouseButton::RightButton,
        4 => MouseButton::MousewheelUp,
        5 => MouseButton::MousewheelDown,
        8 => MouseButton::X1Button,
        9 => MouseButton::X2Button,
        _ => MouseButton::OtherButton(code),
    }
}

impl MouseButton {
    /// The X11 button number of this button.
    pub fn x11_button(self) -> (r: u32)
        ensures
            r == x11_button_of(self),
    {
        match self {
            MouseButton::LeftButton => 1,
            MouseButton::MiddleButton => 2,
            MouseButton::RightButton => 3,
            MouseButton::MousewheelUp => 4,
            MouseButton::MousewheelDown => 5,
            MouseButton::X1Button => 8,
            MouseButton::X2Button => 9,
            MouseButton::OtherButton(code) => code,
        }
    }

    /// The button of an X11 button number.
    pub fn from_x11_button(code: u32) -> (r: MouseButton)
        ensures
            r == button_of_x11(code),
    {
        match code {
            1 => MouseButton::LeftButton,
            2 => MouseButton::MiddleButton,
            3 => MouseButton::RightButton,
            4 => MouseButton::MousewheelUp,
            5 => MouseButton::MousewheelDown,
            8 => MouseButton::X1Button,
            9 => MouseButton::X2Button,
            _ => MouseButton::OtherButton(code),
        }
    }

    /// The button of a Linux input event code (`BTN_LEFT` and its neighbours);
    /// a code without a named button gives `OtherButton`.
    pub fn from_evdev_code(code: u32) -> (r: MouseButton)
        ensures
            r == match code {
                272 => MouseButton::LeftButton,
                273 => MouseButton::RightButton,
                274 => MouseButton::MiddleButton,
                275 => MouseButton::X1Button,
                276 => MouseButton::X2Button,
                _ => MouseButton::OtherButton(code),
            },
    {
        match code {
            272 => MouseButton::LeftButton,
            273 => MouseButton::RightButton,
            274 => MouseButton::MiddleButton,
            275 => MouseButton::X1Button,
            276 => MouseButton::X2Button,
            _ => MouseButton::OtherButton(code),
        }
    }
}

/// Reading an X11 button number back gives the number again, for every number.
pub proof fn lemma_x11_button_round_trip(code: u32)
    ensures
        x11_button_of(button_of_x11(code)) == code,
{
}

/// A named button's X11 number reads back as that button.
pub proof fn lemma_button_of_x11_round_trip(b: MouseButton)
    requires
        b.is_named(),
    ensures
        button_of_x11(x11_button_of(b)) == b,
{
}

/// The X11 button that one click of the wheel sends: 4 and 5 up and down,
/// 6 and 7 left and right.
pub fn x11_wheel_button(horizontal: bool, delta: i32) -> (r: u32)
    ensures
        r == if horizontal {
            if delta < 0 {
                6u32
            } else {
                7u32
            }
        } else if delta < 0 {
            4u32
        } else {
            5u32
        },
{
    if horizontal {
        if delta < 0 {
            6
        } else {
            7
        }
    } else if delta < 0 {
        4
    } else {
        5
    }
}

pub const WM_KEYDOWN: u32 = 0x0100;
pub const WM_KEYUP: u32 = 0x0101;
pub const WM_SYSKEYDOWN: u32 = 0x0104;
pub const WM_SYSKEYUP: u32 = 0x0105;
pub const WM_LBUTTONDOWN: u32 = 0x0201;
pub const WM_LBUTTONUP: u32 = 0x0202;
pub const WM_RBUTTONDOWN: u32 = 0x0204;
pub const WM_RBUTTONUP: u32 = 0x0205;
pub const WM_MBUTTONDOWN: u32 = 0x0207;
pub const WM_MBUTTONUP: u32 = 0x0208;
pub const WM_MOUSEWHEEL: u32 = 0x020A;
pub const WM_XBUTTONDOWN: u32 = 0x020B;
pub const WM_XBUTTONUP: u32 = 0x020C;
pub const XBUTTON1: u16 = 1;
pub const XBUTTON2: u16 = 2;

/// The high 16 bits of a 32-bit word.
pub fn hiword(l: u32) -> (r: u16)
    ensures
        r as nat == l as nat / 65536,
{
    let r = ((l >> 16u32) & 0xffffu32) as u16;
    assert(((l >> 16u32) & 0xffffu32) == l / 65536) by (bit_vector);
    r
}

/// The high 16 bits of a 32-bit word, read as a signed number.
pub fn hiword_signed(l: u32) -> (r: i16)
    ensures
        r as int == if l / 65536 >= 32768 {
            (l / 65536) as int - 65536
        } else {
            (l / 65536) as int
        },
{
    let h = hiword(l);
    if h >= 32768 {
        (h as i32 - 65536) as i16
    } else {
        h as i16
    }
}

/// Whether a low-level keyboard hook message is a press (`Some(true)`) or a
/// release (`Some(false)`).
pub fn key_message_direction(message: u32) -> (r: Option<bool>)
    ensures
        r == if message == WM_KEYDOWN || message == WM_SYSKEYDOWN {
            Some(true)
        } else if message == WM_KEYUP || message == WM_SYSKEYUP {
            Some(false)
        } else {
            None::<bool>
        },
{
    if message == WM_KEYDOWN || message == WM_SYSKEYDOWN {
        Some(true)
    } else if message == WM_KEYUP || message == WM_SYSKEYUP {
        Some(false)
    } else {
        None
    }
}

/// The button and direction (`true` for a release) of a low-level mouse hook
/// message, given the message's mouse data; a wheel click is a press of a
/// wheel direction, up for a delta of zero or more.
pub open spec fn mouse_message(message: u32, mouse_data: u32) -> Option<(MouseButton, bool)> {
    let high = mouse_data / 65536;
    if message == WM_LBUTTONDOWN || message == WM_LBUTTONUP {
        Some((MouseButton::LeftButton, message == WM_LBUTTONUP))
    } else if message == WM_RBUTTONDOWN || message == WM_RBUTTONUP {
        Some((MouseButton::RightButton, message == WM_RBUTTONUP))
    } else if message == WM_MBUTTONDOWN || message == WM_MBUTTONUP {
        Some((MouseButton::MiddleButton, message == WM_MBUTTONUP))
    } else if message == WM_XBUTTONDOWN || message == WM_XBUTTONUP {
        if high == XBUTTON1 {
            Some((MouseButton::X1Button, message == WM_XBUTTONUP))
        } else if high == XBUTTON2 {
            Some((MouseButton::X2Button, message == WM_XBUTTONUP))
        } else {
            None
        }
    } else if message == WM_MOUSEWHEEL {
        if high < 32768 {
            Some((MouseButton::MousewheelUp, false))
        } else {
            Some((MouseButton::MousewheelDown, false))
        }
    } else {
        None
    }
}

/// Identifies a low-level mouse hook message.
pub fn identify_mouse_message(message: u32, mouse_data: u32) -> (r: Option<(MouseButton, bool)>)
    ensures
        r == mouse_message(message, mouse_data),
{
    if message == WM_LBUTTONDOWN || message == WM_LBUTTONUP {
        Some((MouseButton::LeftButton, message == WM_LBUTTONUP))
    } else if message == WM_RBUTTONDOWN || message == WM_RBUTTONUP {
        Some((MouseButton::RightButton, message == WM_RBUTTONUP))
    } else if message == WM_MBUTTONDOWN || message == WM_MBUTTONUP {
        Some((MouseButton::MiddleButton, message == WM_MBUTTONUP))
    } else if message == WM_XBUTTONDOWN || message == WM_XBUTTONUP {
        let high = hiword(mouse_data);
        if high == XBUTTON1 {
            Some((MouseButton::X1Button, message == WM_XBUTTONUP))
        } else if high == XBUTTON2 {
            Some((MouseButton::X2Button, message == WM_XBUTTONUP))
        } else {
            None
        }
    } else if message == WM_MOUSEWHEEL {
        if hiword_signed(mouse_data) >= 0 {
            Some((MouseButton::MousewheelUp, false))
        } else {
            Some((MouseButton::MousewheelDown, false))
        }
    } else {
        None
    }
}

} // verus!

verus! {

/// Whether a key is down in an X11 keymap: one bit per keycode, eight
/// keycodes to a byte, the lowest keycode in the lowest bit.
pub fn keymap_contains(keymap: &[u8; 32], keycode: u8) -> (r: bool)
    ensures
        r == (keymap@[(keycode / 8) as int] & (1u8 << (keycode % 8)) != 0),
{
    let index = (keycode >> 3u8) as usize;
    let bit = keycode & 7u8;
    assert(keycode >> 3u8 == keycode / 8) by (bit_vector);
    assert(keycode & 7u8 == keycode % 8) by (bit_vector);
    keymap[index] & (1u8 << bit) != 0
}

} // verus!

verus! {

/// The X11 keycode of a Linux input key code: the X server numbers keys from
/// 8 above the kernel's codes, up to 255.
pub fn x11_keycode_of_evdev(code: u32) -> (r: Option<u8>)
    ensures
        r == if code + 8 <= 255 {
            Some((code + 8) as u8)
        } else {
            None::<u8>
        },
{
    if code <= 247 {
        Some((code + 8) as u8)
    } else {
        None
    }
}

} // verus!

verus! {

/// The Windows virtual-key code of a key; `OtherKey` carries its code.
pub open spec fn virtual_key_of(k: KeybdKey) -> u64 {
    match k {
        KeybdKey::BackspaceKey => 0x08,
        KeybdKey::TabKey => 0x09,
        KeybdKey::EnterKey => 0x0D,
        KeybdKey::EscapeKey => 0x1B,
        KeybdKey::SpaceKey => 0x20,
        KeybdKey::PageUpKey => 0x21,
        KeybdKey::PageDownKey => 0x22,
        KeybdKey::EndKey => 0x23,
        KeybdKey::HomeKey => 0x24,
        KeybdKey::LeftKey => 0x25,
        KeybdKey::UpKey => 0x26,
        KeybdKey::RightKey => 0x27,
        KeybdKey::DownKey => 0x28,
        KeybdKey::InsertKey => 0x2D,
        KeybdKey::DeleteKey => 0x2E,
        KeybdKey::Numrow0Key => 0x30,
        KeybdKey::Numrow1Key => 0x31,
        KeybdKey::Numrow2Key => 0x32,
        KeybdKey::Numrow3Key => 0x33,
        KeybdKey::Numrow4Key => 0x34,
        KeybdKey::Numrow5Key => 0x35,
        KeybdKey::Numrow6Key => 0x36,
        KeybdKey::Numrow7Key => 0x37,
        KeybdKey::Numrow8Key => 0x38,
        KeybdKey::Numrow9Key => 0x39,
        KeybdKey::AKey => 0x41,
        KeybdKey::BKey => 0x42,
        KeybdKey::CKey => 0x43,
        KeybdKey::DKey => 0x44,
        KeybdKey::EKey => 0x45,
        KeybdKey::FKey => 0x46,
        KeybdKey::GKey => 0x47,
        KeybdKey::HKey => 0x48,
        KeybdKey::IKey => 0x49,
        KeybdKey::JKey => 0x4A,
        KeybdKey::KKey => 0x4B,
        KeybdKey::LKey => 0x4C,
        KeybdKey::MKey => 0x4D,
        KeybdKey::NKey => 0x4E,
        KeybdKey::OKey => 0x4F,
        KeybdKey::PKey => 0x50,
        KeybdKey::QKey => 0x51,
        KeybdKey::RKey => 0x52,
        KeybdKey::SKey => 0x53,
        KeybdKey::TKey => 0x54,
        KeybdKey::UKey => 0x55,
        KeybdKey::VKey => 0x56,
        KeybdKey::WKey => 0x57,
        KeybdKey::XKey => 0x58,
        KeybdKey::YKey => 0x59,
        KeybdKey::ZKey => 0x5A,
        KeybdKey::LSuper => 0x5B,
        KeybdKey::RSuper => 0x5C,
        KeybdKey::Numpad0Key => 0x60,
        KeybdKey::Numpad1Key => 0x61,
        KeybdKey::Numpad2Key => 0x62,
        KeybdKey::Numpad3Key => 0x63,
        KeybdKey::Numpad4Key => 0x64,
        KeybdKey::Numpad5Key => 0x65,
        KeybdKey::Numpad6Key => 0x66,
        KeybdKey::Numpad7Key => 0x67,
        KeybdKey::Numpad8Key => 0x68,
        KeybdKey::Numpad9Key => 0x69,
        KeybdKey::F1Key => 0x70,
        KeybdKey::F2Key => 0x71,
        KeybdKey::F3Key => 0x72,
        KeybdKey::F4Key => 0x73,
        KeybdKey::F5Key => 0x74,
        KeybdKey::F6Key => 0x75,
        KeybdKey::F7Key => 0x76,
        KeybdKey::F8Key => 0x77,
        KeybdKey::F9Key => 0x78,
        KeybdKey::F10Key => 0x79,
        KeybdKey::F11Key => 0x7A,
        KeybdKey::F12Key => 0x7B,
        KeybdKey::F13Key => 0x7C,
        KeybdKey::F14Key => 0x7D,
        KeybdKey::F15Key => 0x7E,
        KeybdKey::F16Key => 0x7F,
        KeybdKey::F17Key => 0x80,
        KeybdKey::F18Key => 0x81,
        KeybdKey::F19Key => 0x82,
        KeybdKey::F20Key => 0x83,
        KeybdKey::F21Key => 0x84,
        KeybdKey::F22Key => 0x85,
        KeybdKey::F23Key => 0x86,
        KeybdKey::F24Key => 0x87,
        KeybdKey::NumLockKey => 0x90,
        KeybdKey::ScrollLockKey => 0x91,
        KeybdKey::CapsLockKey => 0x14,
        KeybdKey::LShiftKey => 0xA0,
        KeybdKey::RShiftKey => 0xA1,
        KeybdKey::LControlKey => 0xA2,
        KeybdKey::RControlKey => 0xA3,
        KeybdKey::LAltKey => 0xA4,
        KeybdKey::RAltKey => 0xA5,
        KeybdKey::BrowserBackKey => 0xA6,
        KeybdKey::BrowserForwardKey => 0xA7,
        KeybdKey::BrowserRefreshKey => 0xA8,
        KeybdKey::VolumeMuteKey => 0xAD,
        KeybdKey::VolumeDownKey => 0xAE,
        KeybdKey::VolumeUpKey => 0xAF,
        KeybdKey::MediaNextTrackKey => 0xB0,
        KeybdKey::MediaPrevTrackKey => 0xB1,
        KeybdKey::MediaStopKey => 0xB2,
        KeybdKey::MediaPlayPauseKey => 0xB3,
        KeybdKey::BackquoteKey => 0xC0,
        KeybdKey::SlashKey => 0xBF,
        KeybdKey::BackslashKey => 0xDC,
        KeybdKey::CommaKey => 0xBC,
        KeybdKey::PeriodKey => 0xBE,
        KeybdKey::MinusKey => 0xBD,
        KeybdKey::QuoteKey => 0xDE,
        KeybdKey::SemicolonKey => 0xBA,
        KeybdKey::LBracketKey => 0xDB,
        KeybdKey::RBracketKey => 0xDD,
        KeybdKey::EqualKey => 0xBB,
        KeybdKey::OtherKey(code) => code,
    }
}

/// The key of a Windows virtual-key code; a code without a named key gives
/// `OtherKey`.
pub open spec fn key_of_virtual_key(code: u64) -> KeybdKey {
    match code {
        0x08 => KeybdKey::BackspaceKey,
        0x09 => KeybdKey::TabKey,
        0x0D => KeybdKey::EnterKey,
        0x1B => KeybdKey::EscapeKey,
        0x20 => KeybdKey::SpaceKey,
        0x21 => KeybdKey::PageUpKey,
        0x22 => KeybdKey::PageDownKey,
        0x23 => KeybdKey::EndKey,
        0x24 => KeybdKey::HomeKey,
        0x25 => KeybdKey::LeftKey,
        0x26 => KeybdKey::UpKey,
        0x27 => KeybdKey::RightKey,
        0x28 => KeybdKey::DownKey,
        0x2D => KeybdKey::InsertKey,
        0x2E => KeybdKey::DeleteKey,
        0x30 => KeybdKey::Numrow0Key,
        0x31 => KeybdKey::Numrow1Key,
        0x32 => KeybdKey::Numrow2Key,
        0x33 => KeybdKey::Numrow3Key,
        0x34 => KeybdKey::Numrow4Key,
        0x35 => KeybdKey::Numrow5Key,
        0x36 => KeybdKey::Numrow6Key,
        0x37 => KeybdKey::Numrow7Key,
        0x38 => KeybdKey::Numrow8Key,
        0x39 => KeybdKey::Numrow9Key,
        0x41 => KeybdKey::AKey,
        0x42 => KeybdKey::BKey,
        0x43 => KeybdKey::CKey,
        0x44 => KeybdKey::DKey,
        0x45 => KeybdKey::EKey,
        0x46 => KeybdKey::FKey,
        0x47 => KeybdKey::GKey,
        0x48 => KeybdKey::HKey,
        0x49 => KeybdKey::IKey,
        0x4A => KeybdKey::JKey,
        0x4B => KeybdKey::KKey,
        0x4C => KeybdKey::LKey,
        0x4D => KeybdKey::MKey,
        0x4E => KeybdKey::NKey,
        0x4F => KeybdKey::OKey,
        0x50 => KeybdKey::PKey,
        0x51 => KeybdKey::QKey,
        0x52 => KeybdKey::RKey,
        0x53 => KeybdKey::SKey,
        0x54 => KeybdKey::TKey,
        0x55 => KeybdKey::UKey,
        0x56 => KeybdKey::VKey,
        0x57 => KeybdKey::WKey,
        0x58 => KeybdKey::XKey,
        0x59 => KeybdKey::YKey,
        0x5A => KeybdKey::ZKey,
        0x5B => KeybdKey::LSuper,
        0x5C => KeybdKey::RSuper,
        0x60 => KeybdKey::Numpad0Key,
        0x61 => KeybdKey::Numpad1Key,
        0x62 => KeybdKey::Numpad2Key,
        0x63 => KeybdKey::Numpad3Key,
        0x64 => KeybdKey::Numpad4Key,
        0x65 => KeybdKey::Numpad5Key,
        0x66 => KeybdKey::Numpad6Key,
        0x67 => KeybdKey::Numpad7Key,
        0x68 => KeybdKey::Numpad8Key,
        0x69 => KeybdKey::Numpad9Key,
        0x70 => KeybdKey::F1Key,
        0x71 => KeybdKey::F2Key,
        0x72 => KeybdKey::F3Key,
        0x73 => KeybdKey::F4Key,
        0x74 => KeybdKey::F5Key,
        0x75 => KeybdKey::F6Key,
        0x76 => KeybdKey::F7Key,
        0x77 => KeybdKey::F8Key,
        0x78 => KeybdKey::F9Key,
        0x79 => KeybdKey::F10Key,
        0x7A => KeybdKey::F11Key,
        0x7B => KeybdKey::F12Key,
        0x7C => KeybdKey::F13Key,
        0x7D => KeybdKey::F14Key,
        0x7E => KeybdKey::F15Key,
        0x7F => KeybdKey::F16Key,
        0x80 => KeybdKey::F17Key,
        0x81 => KeybdKey::F18Key,
        0x82 => KeybdKey::F19Key,
        0x83 => KeybdKey::F20Key,
        0x84 => KeybdKey::F21Key,
        0x85 => KeybdKey::F22Key,
        0x86 => KeybdKey::F23Key,
        0x87 => KeybdKey::F24Key,
        0x90 => KeybdKey::NumLockKey,
        0x91 => KeybdKey::ScrollLockKey,
        0x14 => KeybdKey::CapsLockKey,
        0xA0 => KeybdKey::LShiftKey,
        0xA1 => KeybdKey::RShiftKey,
        0xA2 => KeybdKey::LControlKey,
        0xA3 => KeybdKey::RControlKey,
        0xA4 => KeybdKey::LAltKey,
        0xA5 => KeybdKey::RAltKey,
        0xA6 => KeybdKey::BrowserBackKey,
        0xA7 => KeybdKey::BrowserForwardKey,
        0xA8 => KeybdKey::BrowserRefreshKey,
        0xAD => KeybdKey::VolumeMuteKey,
        0xAE => KeybdKey::VolumeDownKey,
        0xAF => KeybdKey::VolumeUpKey,
        0xB0 => KeybdKey::MediaNextTrackKey,
        0xB1 => KeybdKey::MediaPrevTrackKey,
        0xB2 => KeybdKey::MediaStopKey,
        0xB3 => KeybdKey::MediaPlayPauseKey,
        0xC0 => KeybdKey::BackquoteKey,
        0xBF => KeybdKey::SlashKey,
        0xDC => KeybdKey::BackslashKey,
        0xBC => KeybdKey::CommaKey,
        0xBE => KeybdKey::PeriodKey,
        0xBD => KeybdKey::MinusKey,
        0xDE => KeybdKey::QuoteKey,
        0xBA => KeybdKey::SemicolonKey,
        0xDB => KeybdKey::LBracketKey,
        0xDD => KeybdKey::RBracketKey,
        0xBB => KeybdKey::EqualKey,
        _ => KeybdKey::OtherKey(code),
    }
}

impl KeybdKey {
    /// The Windows virtual-key code of this key.
    pub fn virtual_key(self) -> (r: u64)
        ensures
            r == virtual_key_of(self),
    {
        match self {
            KeybdKey::BackspaceKey => 0x08,
            KeybdKey::TabKey => 0x09,
            KeybdKey::EnterKey => 0x0D,
            KeybdKey::EscapeKey => 0x1B,
            KeybdKey::SpaceKey => 0x20,
            KeybdKey::PageUpKey => 0x21,
            KeybdKey::PageDownKey => 0x22,
            KeybdKey::EndKey => 0x23,
            KeybdKey::HomeKey => 0x24,
            KeybdKey::LeftKey => 0x25,
            KeybdKey::UpKey => 0x26,
            KeybdKey::RightKey => 0x27,
            KeybdKey::DownKey => 0x28,
            KeybdKey::InsertKey => 0x2D,
            KeybdKey::DeleteKey => 0x2E,
            KeybdKey::Numrow0Key => 0x30,
            KeybdKey::Numrow1Key => 0x31,
            KeybdKey::Numrow2Key => 0x32,
            KeybdKey::Numrow3Key => 0x33,
            KeybdKey::Numrow4Key => 0x34,
            KeybdKey::Numrow5Key => 0x35,
            KeybdKey::Numrow6Key => 0x36,
            KeybdKey::Numrow7Key => 0x37,
            KeybdKey::Numrow8Key => 0x38,
            KeybdKey::Numrow9Key => 0x39,
            KeybdKey::AKey => 0x41,
            KeybdKey::BKey => 0x42,
            KeybdKey::CKey => 0x43,
            KeybdKey::DKey => 0x44,
            KeybdKey::EKey => 0x45,
            KeybdKey::FKey => 0x46,
            KeybdKey::GKey => 0x47,
            KeybdKey::HKey => 0x48,
            KeybdKey::IKey => 0x49,
            KeybdKey::JKey => 0x4A,
            KeybdKey::KKey => 0x4B,
            KeybdKey::LKey => 0x4C,
            KeybdKey::MKey => 0x4D,
            KeybdKey::NKey => 0x4E,
            KeybdKey::OKey => 0x4F,
            KeybdKey::PKey => 0x50,
            KeybdKey::QKey => 0x51,
            KeybdKey::RKey => 0x52,
            KeybdKey::SKey => 0x53,
            KeybdKey::TKey => 0x54,
            KeybdKey::UKey => 0x55,
            KeybdKey::VKey => 0x56,
            KeybdKey::WKey => 0x57,
            KeybdKey::XKey => 0x58,
            KeybdKey::YKey => 0x59,
            KeybdKey::ZKey => 0x5A,
            KeybdKey::LSuper => 0x5B,
            KeybdKey::RSuper => 0x5C,
            KeybdKey::Numpad0Key => 0x60,
            KeybdKey::Numpad1Key => 0x61,
            KeybdKey::Numpad2Key => 0x62,
            KeybdKey::Numpad3Key => 0x63,
            KeybdKey::Numpad4Key => 0x64,
            KeybdKey::Numpad5Key => 0x65,
            KeybdKey::Numpad6Key => 0x66,
            KeybdKey::Numpad7Key => 0x67,
            KeybdKey::Numpad8Key => 0x68,
            KeybdKey::Numpad9Key => 0x69,
            KeybdKey::F1Key => 0x70,
            KeybdKey::F2Key => 0x71,
            KeybdKey::F3Key => 0x72,
            KeybdKey::F4Key => 0x73,
            KeybdKey::F5Key => 0x74,
            KeybdKey::F6Key => 0x75,
            KeybdKey::F7Key => 0x76,
            KeybdKey::F8Key => 0x77,
            KeybdKey::F9Key => 0x78,
            KeybdKey::F10Key => 0x79,
            KeybdKey::F11Key => 0x7A,
            KeybdKey::F12Key => 0x7B,
            KeybdKey::F13Key => 0x7C,
            KeybdKey::F14Key => 0x7D,
            KeybdKey::F15Key => 0x7E,
            KeybdKey::F16Key => 0x7F,
            KeybdKey::F17Key => 0x80,
            KeybdKey::F18Key => 0x81,
            KeybdKey::F19Key => 0x82,
            KeybdKey::F20Key => 0x83,
            KeybdKey::F21Key => 0x84,
            KeybdKey::F22Key => 0x85,
            KeybdKey::F23Key => 0x86,
            KeybdKey::F24Key => 0x87,
            KeybdKey::NumLockKey => 0x90,
            KeybdKey::ScrollLockKey => 0x91,
            KeybdKey::CapsLockKey => 0x14,
            KeybdKey::LShiftKey => 0xA0,
            KeybdKey::RShiftKey => 0xA1,
            KeybdKey::LControlKey => 0xA2,
            KeybdKey::RControlKey => 0xA3,
            KeybdKey::LAltKey => 0xA4,
            KeybdKey::RAltKey => 0xA5,
            KeybdKey::BrowserBackKey => 0xA6,
            KeybdKey::BrowserForwardKey => 0xA7,
            KeybdKey::BrowserRefreshKey => 0xA8,
            KeybdKey::VolumeMuteKey => 0xAD,
            KeybdKey::VolumeDownKey => 0xAE,
            KeybdKey::VolumeUpKey => 0xAF,
            KeybdKey::MediaNextTrackKey => 0xB0,
            KeybdKey::MediaPrevTrackKey => 0xB1,
            KeybdKey::MediaStopKey => 0xB2,
            KeybdKey::MediaPlayPauseKey => 0xB3,
            KeybdKey::BackquoteKey => 0xC0,
            KeybdKey::SlashKey => 0xBF,
            KeybdKey::BackslashKey => 0xDC,
            KeybdKey::CommaKey => 0xBC,
            KeybdKey::PeriodKey => 0xBE,
            KeybdKey::MinusKey => 0xBD,
            KeybdKey::QuoteKey => 0xDE,
            KeybdKey::SemicolonKey => 0xBA,
            KeybdKey::LBracketKey => 0xDB,
            KeybdKey::RBracketKey => 0xDD,
            KeybdKey::EqualKey => 0xBB,
            KeybdKey::OtherKey(code) => code,
        }
    }

    /// The key of a Windows virtual-key code.
    pub fn from_virtual_key(code: u64) -> (r: KeybdKey)
        ensures
            r == key_of_virtual_key(code),
    {
        match code {
            0x08 => KeybdKey::BackspaceKey,
            0x09 => KeybdKey::TabKey,
            0x0D => KeybdKey::EnterKey,
            0x1B => KeybdKey::EscapeKey,
            0x20 => KeybdKey::SpaceKey,
            0x21 => KeybdKey::PageUpKey,
            0x22 => KeybdKey::PageDownKey,
            0x23 => KeybdKey::EndKey,
            0x24 => KeybdKey::HomeKey,
            0x25 => KeybdKey::LeftKey,
            0x26 => KeybdKey::UpKey,
            0x27 => KeybdKey::RightKey,
            0x28 => KeybdKey::DownKey,
            0x2D => KeybdKey::InsertKey,
            0x2E => KeybdKey::DeleteKey,
            0x30 => KeybdKey::Numrow0Key,
            0x31 => KeybdKey::Numrow1Key,
            0x32 => KeybdKey::Numrow2Key,
            0x33 => KeybdKey::Numrow3Key,
            0x34 => KeybdKey::Numrow4Key,
            0x35 => KeybdKey::Numrow5Key,
            0x36 => KeybdKey::Numrow6Key,
            0x37 => KeybdKey::Numrow7Key,
            0x38 => KeybdKey::Numrow8Key,
            0x39 => KeybdKey::Numrow9Key,
            0x41 => KeybdKey::AKey,
            0x42 => KeybdKey::BKey,
            0x43 => KeybdKey::CKey,
            0x44 => KeybdKey::DKey,
            0x45 => KeybdKey::EKey,
            0x46 => KeybdKey::FKey,
            0x47 => KeybdKey::GKey,
            0x48 => KeybdKey::HKey,
            0x49 => KeybdKey::IKey,
            0x4A => KeybdKey::JKey,
            0x4B => KeybdKey::KKey,
            0x4C => KeybdKey::LKey,
            0x4D => KeybdKey::MKey,
            0x4E => KeybdKey::NKey,
            0x4F => KeybdKey::OKey,
            0x50 => KeybdKey::PKey,
            0x51 => KeybdKey::QKey,
            0x52 => KeybdKey::RKey,
            0x53 => KeybdKey::SKey,
            0x54 => KeybdKey::TKey,
            0x55 => KeybdKey::UKey,
            0x56 => KeybdKey::VKey,
            0x57 => KeybdKey::WKey,
            0x58 => KeybdKey::XKey,
            0x59 => KeybdKey::YKey,
            0x5A => KeybdKey::ZKey,
            0x5B => KeybdKey::LSuper,
            0x5C => KeybdKey::RSuper,
            0x60 => KeybdKey::Numpad0Key,
            0x61 => KeybdKey::Numpad1Key,
            0x62 => KeybdKey::Numpad2Key,
            0x63 => KeybdKey::Numpad3Key,
            0x64 => KeybdKey::Numpad4Key,
            0x65 => KeybdKey::Numpad5Key,
            0x66 => KeybdKey::Numpad6Key,
            0x67 => KeybdKey::Numpad7Key,
            0x68 => KeybdKey::Numpad8Key,
            0x69 => KeybdKey::Numpad9Key,
            0x70 => KeybdKey::F1Key,
            0x71 => KeybdKey::F2Key,
            0x72 => KeybdKey::F3Key,
            0x73 => KeybdKey::F4Key,
            0x74 => KeybdKey::F5Key,
            0x75 => KeybdKey::F6Key,
            0x76 => KeybdKey::F7Key,
            0x77 => KeybdKey::F8Key,
            0x78 => KeybdKey::F9Key,
            0x79 => KeybdKey::F10Key,
            0x7A => KeybdKey::F11Key,
            0x7B => KeybdKey::F12Key,
            0x7C => KeybdKey::F13Key,
            0x7D => KeybdKey::F14Key,
            0x7E => KeybdKey::F15Key,
            0x7F => KeybdKey::F16Key,
            0x80 => KeybdKey::F17Key,
            0x81 => KeybdKey::F18Key,
            0x82 => KeybdKey::F19Key,
            0x83 => KeybdKey::F20Key,
            0x84 => KeybdKey::F21Key,
            0x85 => KeybdKey::F22Key,
            0x86 => KeybdKey::F23Key,
            0x87 => KeybdKey::F24Key,
            0x90 => KeybdKey::NumLockKey,
            0x91 => KeybdKey::ScrollLockKey,
            0x14 => KeybdKey::CapsLockKey,
            0xA0 => KeybdKey::LShiftKey,
            0xA1 => KeybdKey::RShiftKey,
            0xA2 => KeybdKey::LControlKey,
            0xA3 => KeybdKey::RControlKey,
            0xA4 => KeybdKey::LAltKey,
            0xA5 => KeybdKey::RAltKey,
            0xA6 => KeybdKey::BrowserBackKey,
            0xA7 => KeybdKey::BrowserForwardKey,
            0xA8 => KeybdKey::BrowserRefreshKey,
            0xAD => KeybdKey::VolumeMuteKey,
            0xAE => KeybdKey::VolumeDownKey,
            0xAF => KeybdKey::VolumeUpKey,
            0xB0 => KeybdKey::MediaNextTrackKey,
            0xB1 => KeybdKey::MediaPrevTrackKey,
            0xB2 => KeybdKey::MediaStopKey,
            0xB3 => KeybdKey::MediaPlayPauseKey,
            0xC0 => KeybdKey::BackquoteKey,
            0xBF => KeybdKey::SlashKey,
            0xDC => KeybdKey::BackslashKey,
            0xBC => KeybdKey::CommaKey,
            0xBE => KeybdKey::PeriodKey,
            0xBD => KeybdKey::MinusKey,
            0xDE => KeybdKey::QuoteKey,
            0xBA => KeybdKey::SemicolonKey,
            0xDB => KeybdKey::LBracketKey,
            0xDD => KeybdKey::RBracketKey,
            0xBB => KeybdKey::EqualKey,
            _ => KeybdKey::OtherKey(code),
        }
    }
}

/// Reading a virtual-key code back gives the code again, for every code.
pub proof fn lemma_virtual_key_round_trip(code: u64)
    ensures
        virtual_key_of(key_of_virtual_key(code)) == code,
{
}

/// A named key's virtual-key code reads back as that key.
pub proof fn lemma_key_of_virtual_key_round_trip(k: KeybdKey)
    requires
        k.is_named(),
    ensures
        key_of_virtual_key(virtual_key_of(k)) == k,
{
}

} // verus!

verus! {

/// The key of a Linux input key event, given the keysym that the X server
/// has for it: `None` when the code has no X keycode, `Some(0)` when the
/// keycode has no keysym. A key without a keysym keeps its raw input code.
pub fn key_of_linux_event(code: u32, keysym: Option<u64>) -> (r: KeybdKey)
    ensures
        r == if keysym is Some && keysym->0 != 0 {
            key_of_keysym(keysym->0)
        } else {
            KeybdKey::OtherKey(code as u64)
        },
{
    match keysym {
        Some(sym) if sym != 0 => KeybdKey::from_keysym(sym),
        _ => KeybdKey::OtherKey(code as u64),
    }
}

} // verus!
