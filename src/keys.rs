//! The logical keys and mouse buttons, and the enumeration of the named ones.

use vstd::prelude::*;

verus! {

/// A keyboard key: every named key, and `OtherKey` for a raw platform code
/// that has no name of its own.
#[derive(Debug, Clone, Copy, PartialEq, Eq, Hash, Structural)]
pub enum KeybdKey {
    BackspaceKey,
    TabKey,
    EnterKey,
    EscapeKey,
    SpaceKey,
    PageUpKey,
    PageDownKey,
    EndKey,
    HomeKey,
    LeftKey,
    UpKey,
    RightKey,
    DownKey,
    InsertKey,
    DeleteKey,
    Numrow0Key,
    Numrow1Key,
    Numrow2Key,
    Numrow3Key,
    Numrow4Key,
    Numrow5Key,
    Numrow6Key,
    Numrow7Key,
    Numrow8Key,
    Numrow9Key,
    AKey,
    BKey,
    CKey,
    DKey,
    EKey,
    FKey,
    GKey,
    HKey,
    IKey,
    JKey,
    KKey,
    LKey,
    MKey,
    NKey,
    OKey,
    PKey,
    QKey,
    RKey,
    SKey,
    TKey,
    UKey,
    VKey,
    WKey,
    XKey,
    YKey,
    ZKey,
    LSuper,
    RSuper,
    Numpad0Key,
    Numpad1Key,
    Numpad2Key,
    Numpad3Key,
    Numpad4Key,
    Numpad5Key,
    Numpad6Key,
    Numpad7Key,
    Numpad8Key,
    Numpad9Key,
    F1Key,
    F2Key,
    F3Key,
    F4Key,
    F5Key,
    F6Key,
    F7Key,
    F8Key,
    F9Key,
    F10Key,
    F11Key,
    F12Key,
    F13Key,
    F14Key,
    F15Key,
    F16Key,
    F17Key,
    F18Key,
    F19Key,
    F20Key,
    F21Key,
    F22Key,
    F23Key,
    F24Key,
    NumLockKey,
    ScrollLockKey,
    CapsLockKey,
    LShiftKey,
    RShiftKey,
    LControlKey,
    RControlKey,
    LAltKey,
    RAltKey,
    BrowserBackKey,
    BrowserForwardKey,
    BrowserRefreshKey,
    VolumeMuteKey,
    VolumeDownKey,
    VolumeUpKey,
    MediaNextTrackKey,
    MediaPrevTrackKey,
    MediaStopKey,
    MediaPlayPauseKey,
    BackquoteKey,
    SlashKey,
    BackslashKey,
    CommaKey,
    PeriodKey,
    MinusKey,
    QuoteKey,
    SemicolonKey,
    LBracketKey,
    RBracketKey,
    EqualKey,
    OtherKey(u64),
}

/// A mouse button, including the two wheel directions, and `OtherButton` for a
/// raw platform code that has no name of its own.
#[derive(Debug, Clone, Copy, PartialEq, Eq, Hash, Structural)]
pub enum MouseButton {
    LeftButton,
    MiddleButton,
    RightButton,
    X1Button,
    X2Button,
    MousewheelUp,
    MousewheelDown,
    OtherButton(u32),
}

/// The number of named keyboard keys.
pub const KEYBD_KEY_COUNT: usize = 117;

/// The number of named mouse buttons.
pub const MOUSE_BUTTON_COUNT: usize = 7;

/// A logical input that can be compared at run time.
pub trait LogicalInput: Copy + Sized {
    /// Whether two inputs are the same input.
    fn same(&self, other: &Self) -> (r: bool)
        ensures
            r == (*self == *other),
    ;
}

impl LogicalInput for KeybdKey {
    fn same(&self, other: &Self) -> (r: bool) {
        *self == *other
    }
}

impl LogicalInput for MouseButton {
    fn same(&self, other: &Self) -> (r: bool) {
        *self == *other
    }
}

impl KeybdKey {
    /// Whether this is one of the named keys (not `OtherKey`).
    pub open spec fn is_named(self) -> bool {
        !(self is OtherKey)
    }

    /// The position of a named key in the enumeration of all named keys.
    pub open spec fn index(self) -> nat {
        match self {
            KeybdKey::BackspaceKey => 0,
            KeybdKey::TabKey => 1,
            KeybdKey::EnterKey => 2,
            KeybdKey::EscapeKey => 3,
            KeybdKey::SpaceKey => 4,
            KeybdKey::PageUpKey => 5,
            KeybdKey::PageDownKey => 6,
            KeybdKey::EndKey => 7,
            KeybdKey::HomeKey => 8,
            KeybdKey::LeftKey => 9,
            KeybdKey::UpKey => 10,
            KeybdKey::RightKey => 11,
            KeybdKey::DownKey => 12,
            KeybdKey::InsertKey => 13,
            KeybdKey::DeleteKey => 14,
            KeybdKey::Numrow0Key => 15,
            KeybdKey::Numrow1Key => 16,
            KeybdKey::Numrow2Key => 17,
            KeybdKey::Numrow3Key => 18,
            KeybdKey::Numrow4Key => 19,
            KeybdKey::Numrow5Key => 20,
            KeybdKey::Numrow6Key => 21,
            KeybdKey::Numrow7Key => 22,
            KeybdKey::Numrow8Key => 23,
            KeybdKey::Numrow9Key => 24,
            KeybdKey::AKey => 25,
            KeybdKey::BKey => 26,
            KeybdKey::CKey => 27,
            KeybdKey::DKey => 28,
            KeybdKey::EKey => 29,
            KeybdKey::FKey => 30,
            KeybdKey::GKey => 31,
            KeybdKey::HKey => 32,
            KeybdKey::IKey => 33,
            KeybdKey::JKey => 34,
            KeybdKey::KKey => 35,
            KeybdKey::LKey => 36,
            KeybdKey::MKey => 37,
            KeybdKey::NKey => 38,
            KeybdKey::OKey => 39,
            KeybdKey::PKey => 40,
            KeybdKey::QKey => 41,
            KeybdKey::RKey => 42,
            KeybdKey::SKey => 43,
            KeybdKey::TKey => 44,
            KeybdKey::UKey => 45,
            KeybdKey::VKey => 46,
            KeybdKey::WKey => 47,
            KeybdKey::XKey => 48,
            KeybdKey::YKey => 49,
            KeybdKey::ZKey => 50,
            KeybdKey::LSuper => 51,
            KeybdKey::RSuper => 52,
            KeybdKey::Numpad0Key => 53,
            KeybdKey::Numpad1Key => 54,
            KeybdKey::Numpad2Key => 55,
            KeybdKey::Numpad3Key => 56,
            KeybdKey::Numpad4Key => 57,
            KeybdKey::Numpad5Key => 58,
            KeybdKey::Numpad6Key => 59,
            KeybdKey::Numpad7Key => 60,
            KeybdKey::Numpad8Key => 61,
            KeybdKey::Numpad9Key => 62,
            KeybdKey::F1Key => 63,
            KeybdKey::F2Key => 64,
            KeybdKey::F3Key => 65,
            KeybdKey::F4Key => 66,
            KeybdKey::F5Key => 67,
            KeybdKey::F6Key => 68,
            KeybdKey::F7Key => 69,
            KeybdKey::F8Key => 70,
            KeybdKey::F9Key => 71,
            KeybdKey::F10Key => 72,
            KeybdKey::F11Key => 73,
            KeybdKey::F12Key => 74,
            KeybdKey::F13Key => 75,
            KeybdKey::F14Key => 76,
            KeybdKey::F15Key => 77,
            KeybdKey::F16Key => 78,
            KeybdKey::F17Key => 79,
            KeybdKey::F18Key => 80,
            KeybdKey::F19Key => 81,
            KeybdKey::F20Key => 82,
            KeybdKey::F21Key => 83,
            KeybdKey::F22Key => 84,
            KeybdKey::F23Key => 85,
            KeybdKey::F24Key => 86,
            KeybdKey::NumLockKey => 87,
            KeybdKey::ScrollLockKey => 88,
            KeybdKey::CapsLockKey => 89,
            KeybdKey::LShiftKey => 90,
            KeybdKey::RShiftKey => 91,
            KeybdKey::LControlKey => 92,
            KeybdKey::RControlKey => 93,
            KeybdKey::LAltKey => 94,
            KeybdKey::RAltKey => 95,
            KeybdKey::BrowserBackKey => 96,
            KeybdKey::BrowserForwardKey => 97,
            KeybdKey::BrowserRefreshKey => 98,
            KeybdKey::VolumeMuteKey => 99,
            KeybdKey::VolumeDownKey => 100,
            KeybdKey::VolumeUpKey => 101,
            KeybdKey::MediaNextTrackKey => 102,
            KeybdKey::MediaPrevTrackKey => 103,
            KeybdKey::MediaStopKey => 104,
            KeybdKey::MediaPlayPauseKey => 105,
            KeybdKey::BackquoteKey => 106,
            KeybdKey::SlashKey => 107,
            KeybdKey::BackslashKey => 108,
            KeybdKey::CommaKey => 109,
            KeybdKey::PeriodKey => 110,
            KeybdKey::MinusKey => 111,
            KeybdKey::QuoteKey => 112,
            KeybdKey::SemicolonKey => 113,
            KeybdKey::LBracketKey => 114,
            KeybdKey::RBracketKey => 115,
            KeybdKey::EqualKey => 116,
            KeybdKey::OtherKey(_) => 117,
        }
    }

    /// The named key at a position of the enumeration.
    pub open spec fn spec_nth(i: usize) -> KeybdKey {
        match i {
            0 => KeybdKey::BackspaceKey,
            1 => KeybdKey::TabKey,
            2 => KeybdKey::EnterKey,
            3 => KeybdKey::EscapeKey,
            4 => KeybdKey::SpaceKey,
            5 => KeybdKey::PageUpKey,
            6 => KeybdKey::PageDownKey,
            7 => KeybdKey::EndKey,
            8 => KeybdKey::HomeKey,
            9 => KeybdKey::LeftKey,
            10 => KeybdKey::UpKey,
            11 => KeybdKey::RightKey,
            12 => KeybdKey::DownKey,
            13 => KeybdKey::InsertKey,
            14 => KeybdKey::DeleteKey,
            15 => KeybdKey::Numrow0Key,
            16 => KeybdKey::Numrow1Key,
            17 => KeybdKey::Numrow2Key,
            18 => KeybdKey::Numrow3Key,
            19 => KeybdKey::Numrow4Key,
            20 => KeybdKey::Numrow5Key,
            21 => KeybdKey::Numrow6Key,
            22 => KeybdKey::Numrow7Key,
            23 => KeybdKey::Numrow8Key,
            24 => KeybdKey::Numrow9Key,
            25 => KeybdKey::AKey,
            26 => KeybdKey::BKey,
            27 => KeybdKey::CKey,
            28 => KeybdKey::DKey,
            29 => KeybdKey::EKey,
            30 => KeybdKey::FKey,
            31 => KeybdKey::GKey,
            32 => KeybdKey::HKey,
            33 => KeybdKey::IKey,
            34 => KeybdKey::JKey,
            35 => KeybdKey::KKey,
            36 => KeybdKey::LKey,
            37 => KeybdKey::MKey,
            38 => KeybdKey::NKey,
            39 => KeybdKey::OKey,
            40 => KeybdKey::PKey,
            41 => KeybdKey::QKey,
            42 => KeybdKey::RKey,
            43 => KeybdKey::SKey,
            44 => KeybdKey::TKey,
            45 => KeybdKey::UKey,
            46 => KeybdKey::VKey,
            47 => KeybdKey::WKey,
            48 => KeybdKey::XKey,
            49 => KeybdKey::YKey,
            50 => KeybdKey::ZKey,
            51 => KeybdKey::LSuper,
            52 => KeybdKey::RSuper,
            53 => KeybdKey::Numpad0Key,
            54 => KeybdKey::Numpad1Key,
            55 => KeybdKey::Numpad2Key,
            56 => KeybdKey::Numpad3Key,
            57 => KeybdKey::Numpad4Key,
            58 => KeybdKey::Numpad5Key,
            59 => KeybdKey::Numpad6Key,
            60 => KeybdKey::Numpad7Key,
            61 => KeybdKey::Numpad8Key,
            62 => KeybdKey::Numpad9Key,
            63 => KeybdKey::F1Key,
            64 => KeybdKey::F2Key,
            65 => KeybdKey::F3Key,
            66 => KeybdKey::F4Key,
            67 => KeybdKey::F5Key,
            68 => KeybdKey::F6Key,
            69 => KeybdKey::F7Key,
            70 => KeybdKey::F8Key,
            71 => KeybdKey::F9Key,
            72 => KeybdKey::F10Key,
            73 => KeybdKey::F11Key,
            74 => KeybdKey::F12Key,
            75 => KeybdKey::F13Key,
            76 => KeybdKey::F14Key,
            77 => KeybdKey::F15Key,
            78 => KeybdKey::F16Key,
            79 => KeybdKey::F17Key,
            80 => KeybdKey::F18Key,
            81 => KeybdKey::F19Key,
            82 => KeybdKey::F20Key,
            83 => KeybdKey::F21Key,
            84 => KeybdKey::F22Key,
            85 => KeybdKey::F23Key,
            86 => KeybdKey::F24Key,
            87 => KeybdKey::NumLockKey,
            88 => KeybdKey::ScrollLockKey,
            89 => KeybdKey::CapsLockKey,
            90 => KeybdKey::LShiftKey,
            91 => KeybdKey::RShiftKey,
            92 => KeybdKey::LControlKey,
            93 => KeybdKey::RControlKey,
            94 => KeybdKey::LAltKey,
            95 => KeybdKey::RAltKey,
            96 => KeybdKey::BrowserBackKey,
            97 => KeybdKey::BrowserForwardKey,
            98 => KeybdKey::BrowserRefreshKey,
            99 => KeybdKey::VolumeMuteKey,
            100 => KeybdKey::VolumeDownKey,
            101 => KeybdKey::VolumeUpKey,
            102 => KeybdKey::MediaNextTrackKey,
            103 => KeybdKey::MediaPrevTrackKey,
            104 => KeybdKey::MediaStopKey,
            105 => KeybdKey::MediaPlayPauseKey,
            106 => KeybdKey::BackquoteKey,
            107 => KeybdKey::SlashKey,
            108 => KeybdKey::BackslashKey,
            109 => KeybdKey::CommaKey,
            110 => KeybdKey::PeriodKey,
            111 => KeybdKey::MinusKey,
            112 => KeybdKey::QuoteKey,
            113 => KeybdKey::SemicolonKey,
            114 => KeybdKey::LBracketKey,
            115 => KeybdKey::RBracketKey,
            116 => KeybdKey::EqualKey,
            _ => KeybdKey::OtherKey(0),
        }
    }

    /// Each named key stands at its own position of the enumeration.
    pub proof fn lemma_nth_index(self)
        requires
            self.is_named(),
        ensures
            self.index() < KEYBD_KEY_COUNT,
            Self::spec_nth(self.index() as usize) == self,
    {
    }

    /// The named key at position `i` of the enumeration.
    pub fn nth(i: usize) -> (k: KeybdKey)
        requires
            i < KEYBD_KEY_COUNT,
        ensures
            k == Self::spec_nth(i),
            k.is_named(),
            k.index() == i,
    {
        match i {
            0 => KeybdKey::BackspaceKey,
            1 => KeybdKey::TabKey,
            2 => KeybdKey::EnterKey,
            3 => KeybdKey::EscapeKey,
            4 => KeybdKey::SpaceKey,
            5 => KeybdKey::PageUpKey,
            6 => KeybdKey::PageDownKey,
            7 => KeybdKey::EndKey,
            8 => KeybdKey::HomeKey,
            9 => KeybdKey::LeftKey,
            10 => KeybdKey::UpKey,
            11 => KeybdKey::RightKey,
            12 => KeybdKey::DownKey,
            13 => KeybdKey::InsertKey,
            14 => KeybdKey::DeleteKey,
            15 => KeybdKey::Numrow0Key,
            16 => KeybdKey::Numrow1Key,
            17 => KeybdKey::Numrow2Key,
            18 => KeybdKey::Numrow3Key,
            19 => KeybdKey::Numrow4Key,
            20 => KeybdKey::Numrow5Key,
            21 => KeybdKey::Numrow6Key,
            22 => KeybdKey::Numrow7Key,
            23 => KeybdKey::Numrow8Key,
            24 => KeybdKey::Numrow9Key,
            25 => KeybdKey::AKey,
            26 => KeybdKey::BKey,
            27 => KeybdKey::CKey,
            28 => KeybdKey::DKey,
            29 => KeybdKey::EKey,
            30 => KeybdKey::FKey,
            31 => KeybdKey::GKey,
            32 => KeybdKey::HKey,
            33 => KeybdKey::IKey,
            34 => KeybdKey::JKey,
            35 => KeybdKey::KKey,
            36 => KeybdKey::LKey,
            37 => KeybdKey::MKey,
            38 => KeybdKey::NKey,
            39 => KeybdKey::OKey,
            40 => KeybdKey::PKey,
            41 => KeybdKey::QKey,
            42 => KeybdKey::RKey,
            43 => KeybdKey::SKey,
            44 => KeybdKey::TKey,
            45 => KeybdKey::UKey,
            46 => KeybdKey::VKey,
            47 => KeybdKey::WKey,
            48 => KeybdKey::XKey,
            49 => KeybdKey::YKey,
            50 => KeybdKey::ZKey,
            51 => KeybdKey::LSuper,
            52 => KeybdKey::RSuper,
            53 => KeybdKey::Numpad0Key,
            54 => KeybdKey::Numpad1Key,
            55 => KeybdKey::Numpad2Key,
            56 => KeybdKey::Numpad3Key,
            57 => KeybdKey::Numpad4Key,
            58 => KeybdKey::Numpad5Key,
            59 => KeybdKey::Numpad6Key,
            60 => KeybdKey::Numpad7Key,
            61 => KeybdKey::Numpad8Key,
            62 => KeybdKey::Numpad9Key,
            63 => KeybdKey::F1Key,
            64 => KeybdKey::F2Key,
            65 => KeybdKey::F3Key,
            66 => KeybdKey::F4Key,
            67 => KeybdKey::F5Key,
            68 => KeybdKey::F6Key,
            69 => KeybdKey::F7Key,
            70 => KeybdKey::F8Key,
            71 => KeybdKey::F9Key,
            72 => KeybdKey::F10Key,
            73 => KeybdKey::F11Key,
            74 => KeybdKey::F12Key,
            75 => KeybdKey::F13Key,
            76 => KeybdKey::F14Key,
            77 => KeybdKey::F15Key,
            78 => KeybdKey::F16Key,
            79 => KeybdKey::F17Key,
            80 => KeybdKey::F18Key,
            81 => KeybdKey::F19Key,
            82 => KeybdKey::F20Key,
            83 => KeybdKey::F21Key,
            84 => KeybdKey::F22Key,
            85 => KeybdKey::F23Key,
            86 => KeybdKey::F24Key,
            87 => KeybdKey::NumLockKey,
            88 => KeybdKey::ScrollLockKey,
            89 => KeybdKey::CapsLockKey,
            90 => KeybdKey::LShiftKey,
            91 => KeybdKey::RShiftKey,
            92 => KeybdKey::LControlKey,
            93 => KeybdKey::RControlKey,
            94 => KeybdKey::LAltKey,
            95 => KeybdKey::RAltKey,
            96 => KeybdKey::BrowserBackKey,
            97 => KeybdKey::BrowserForwardKey,
            98 => KeybdKey::BrowserRefreshKey,
            99 => KeybdKey::VolumeMuteKey,
            100 => KeybdKey::VolumeDownKey,
            101 => KeybdKey::VolumeUpKey,
            102 => KeybdKey::MediaNextTrackKey,
            103 => KeybdKey::MediaPrevTrackKey,
            104 => KeybdKey::MediaStopKey,
            105 => KeybdKey::MediaPlayPauseKey,
            106 => KeybdKey::BackquoteKey,
            107 => KeybdKey::SlashKey,
            108 => KeybdKey::BackslashKey,
            109 => KeybdKey::CommaKey,
            110 => KeybdKey::PeriodKey,
            111 => KeybdKey::MinusKey,
            112 => KeybdKey::QuoteKey,
            113 => KeybdKey::SemicolonKey,
            114 => KeybdKey::LBracketKey,
            115 => KeybdKey::RBracketKey,
            _ => KeybdKey::EqualKey,
        }
    }

    /// Every named key, in enumeration order.
    pub fn all() -> (r: Vec<KeybdKey>)
        ensures
            r.len() == KEYBD_KEY_COUNT,
            forall|i: int| 0 <= i < r.len() ==> #[trigger] r[i] == Self::spec_nth(i as usize),
            forall|k: KeybdKey| k.is_named() ==> r@.contains(k),
    {
        let mut r: Vec<KeybdKey> = Vec::new();
        let mut i: usize = 0;
        while i < KEYBD_KEY_COUNT
            invariant
                i <= KEYBD_KEY_COUNT,
                r.len() == i,
                forall|j: int| 0 <= j < i ==> #[trigger] r[j] == Self::spec_nth(j as usize),
            decreases KEYBD_KEY_COUNT - i,
        {
            r.push(Self::nth(i));
            i += 1;
        }
        assert forall|k: KeybdKey| k.is_named() implies r@.contains(k) by {
            k.lemma_nth_index();
            assert(r[k.index() as int] == k);
        }
        r
    }
}

impl MouseButton {
    /// Whether this is one of the named buttons (not `OtherButton`).
    pub open spec fn is_named(self) -> bool {
        !(self is OtherButton)
    }

    /// The position of a named button in the enumeration of all named buttons.
    pub open spec fn index(self) -> nat {
        match self {
            MouseButton::LeftButton => 0,
            MouseButton::MiddleButton => 1,
            MouseButton::RightButton => 2,
            MouseButton::X1Button => 3,
            MouseButton::X2Button => 4,
            MouseButton::MousewheelUp => 5,
            MouseButton::MousewheelDown => 6,
            MouseButton::OtherButton(_) => 7,
        }
    }

    /// The named button at a position of the enumeration.
    pub open spec fn spec_nth(i: usize) -> MouseButton {
        match i {
            0 => MouseButton::LeftButton,
            1 => MouseButton::MiddleButton,
            2 => MouseButton::RightButton,
            3 => MouseButton::X1Button,
            4 => MouseButton::X2Button,
            5 => MouseButton::MousewheelUp,
            6 => MouseButton::MousewheelDown,
            _ => MouseButton::OtherButton(0),
        }
    }

    /// Each named button stands at its own position of the enumeration.
    pub proof fn lemma_nth_index(self)
        requires
            self.is_named(),
        ensures
            self.index() < MOUSE_BUTTON_COUNT,
            Self::spec_nth(self.index() as usize) == self,
    {
    }

    /// The named button at position `i` of the enumeration.
    pub fn nth(i: usize) -> (b: MouseButton)
        requires
            i < MOUSE_BUTTON_COUNT,
        ensures
            b == Self::spec_nth(i),
            b.is_named(),
            b.index() == i,
    {
        match i {
            0 => MouseButton::LeftButton,
            1 => MouseButton::MiddleButton,
            2 => MouseButton::RightButton,
            3 => MouseButton::X1Button,
            4 => MouseButton::X2Button,
            5 => MouseButton::MousewheelUp,
            _ => MouseButton::MousewheelDown,
        }
    }

    /// Every named button, in enumeration order.
    pub fn all() -> (r: Vec<MouseButton>)
        ensures
            r.len() == MOUSE_BUTTON_COUNT,
            forall|i: int| 0 <= i < r.len() ==> #[trigger] r[i] == Self::spec_nth(i as usize),
            forall|b: MouseButton| b.is_named() ==> r@.contains(b),
    {
        let mut r: Vec<MouseButton> = Vec::new();
        let mut i: usize = 0;
        while i < MOUSE_BUTTON_COUNT
            invariant
                i <= MOUSE_BUTTON_COUNT,
                r.len() == i,
                forall|j: int| 0 <= j < i ==> #[trigger] r[j] == Self::spec_nth(j as usize),
            decreases MOUSE_BUTTON_COUNT - i,
        {
            r.push(Self::nth(i));
            i += 1;
        }
        assert forall|b: MouseButton| b.is_named() implies r@.contains(b) by {
            b.lemma_nth_index();
            assert(r[b.index() as int] == b);
        }
        r
    }
}

} // verus!
