//! Synthetic input: the events that pressing, moving and scrolling send.

use vstd::prelude::*;
use crate::keys::{KeybdKey, MouseButton};

verus! {

/// One synthetic input event, as handed to the system's injection facility.
#[derive(Debug, Clone, Copy, PartialEq, Eq, Structural)]
pub enum SyntheticInput {
    KeyDown(KeybdKey),
    KeyUp(KeybdKey),
    ButtonDown(MouseButton),
    ButtonUp(MouseButton),
    /// Moves the cursor by this many pixels.
    MoveBy { dx: i32, dy: i32 },
    /// Moves the cursor to this position; the top left corner is (0, 0).
    MoveTo { x: i32, y: i32 },
    /// Turns the wheel by `delta`, in the system's units.
    Wheel { horizontal: bool, delta: i32 },
}

/// The system's unit for one click of the wheel.
pub const WHEEL_DELTA: i32 = 120;

/// `v`, or the nearest end of the `i32` range when it lies outside.
pub open spec fn clamp_i32(v: int) -> i32 {
    if v > i32::MAX {
        i32::MAX
    } else if v < i32::MIN {
        i32::MIN
    } else {
        v as i32
    }
}

fn saturate(v: i64) -> (r: i32)
    ensures
        r == clamp_i32(v as int),
{
    if v > i32::MAX as i64 {
        i32::MAX
    } else if v < i32::MIN as i64 {
        i32::MIN
    } else {
        v as i32
    }
}

/// Handle for moving the mouse cursor.
pub struct MouseCursor;

/// Handle for turning the mouse wheel.
pub struct MouseWheel;

impl KeybdKey {
    /// Presses this key; it stays down until released.
    pub fn press(self) -> (r: SyntheticInput)
        ensures
            r == SyntheticInput::KeyDown(self),
    {
        SyntheticInput::KeyDown(self)
    }

    /// Releases this key.
    pub fn release(self) -> (r: SyntheticInput)
        ensures
            r == SyntheticInput::KeyUp(self),
    {
        SyntheticInput::KeyUp(self)
    }

    /// The keyboard indicator bit of a lock key: 1 for caps lock, 2 for num
    /// lock, 4 for scroll lock.
    pub open spec fn lock_indicator(self) -> Option<u64> {
        match self {
            KeybdKey::CapsLockKey => Some(1u64),
            KeybdKey::NumLockKey => Some(2u64),
            KeybdKey::ScrollLockKey => Some(4u64),
            _ => None,
        }
    }

    /// Whether this lock key is on, given the keyboard's indicator mask; a
    /// key that is no lock key is never on.
    pub fn is_toggled(self, indicator_mask: u64) -> (r: bool)
        ensures
            r == match self.lock_indicator() {
                Some(bit) => indicator_mask & bit != 0,
                None => false,
            },
    {
        match self {
            KeybdKey::CapsLockKey => indicator_mask & 1 != 0,
            KeybdKey::NumLockKey => indicator_mask & 2 != 0,
            KeybdKey::ScrollLockKey => indicator_mask & 4 != 0,
            _ => false,
        }
    }
}

impl MouseButton {
    /// Presses this button; it stays down until released.
    pub fn press(self) -> (r: SyntheticInput)
        ensures
            r == SyntheticInput::ButtonDown(self),
    {
        SyntheticInput::ButtonDown(self)
    }

    /// Releases this button.
    pub fn release(self) -> (r: SyntheticInput)
        ensures
            r == SyntheticInput::ButtonUp(self),
    {
        SyntheticInput::ButtonUp(self)
    }
}

impl MouseCursor {
    /// Moves the cursor by `dx`, `dy` pixels from where it is.
    pub fn move_rel(dx: i32, dy: i32) -> (r: SyntheticInput)
        ensures
            r == (SyntheticInput::MoveBy { dx, dy }),
    {
        SyntheticInput::MoveBy { dx, dy }
    }

    /// Moves the cursor to `x`, `y`; the top left corner is (0, 0).
    pub fn move_abs(x: i32, y: i32) -> (r: SyntheticInput)
        ensures
            r == (SyntheticInput::MoveTo { x, y }),
    {
        SyntheticInput::MoveTo { x, y }
    }

    /// The position `dx`, `dy` pixels away from `from`, kept in the `i32`
    /// range.
    pub fn offset(from: (i32, i32), dx: i32, dy: i32) -> (r: (i32, i32))
        ensures
            r.0 == clamp_i32(from.0 + dx),
            r.1 == clamp_i32(from.1 + dy),
    {
        (saturate(from.0 as i64 + dx as i64), saturate(from.1 as i64 + dy as i64))
    }
}

impl MouseWheel {
    /// Scrolls vertically by `dwheel` clicks of the wheel.
    pub fn scroll_ver(dwheel: i32) -> (r: SyntheticInput)
        ensures
            r == (SyntheticInput::Wheel { horizontal: false, delta: clamp_i32(dwheel * 120) }),
    {
        SyntheticInput::Wheel { horizontal: false, delta: saturate(dwheel as i64 * 120) }
    }

    /// Scrolls horizontally by `dwheel` clicks of the wheel.
    pub fn scroll_hor(dwheel: i32) -> (r: SyntheticInput)
        ensures
            r == (SyntheticInput::Wheel { horizontal: true, delta: clamp_i32(dwheel * 120) }),
    {
        SyntheticInput::Wheel { horizontal: true, delta: saturate(dwheel as i64 * 120) }
    }

    /// Scrolls vertically by `dwheel` of the system's wheel units.
    pub fn scroll_ver_unscaled(dwheel: i32) -> (r: SyntheticInput)
        ensures
            r == (SyntheticInput::Wheel { horizontal: false, delta: dwheel }),
    {
        SyntheticInput::Wheel { horizontal: false, delta: dwheel }
    }

    /// Scrolls horizontally by `dwheel` of the system's wheel units.
    pub fn scroll_hor_unscaled(dwheel: i32) -> (r: SyntheticInput)
        ensures
            r == (SyntheticInput::Wheel { horizontal: true, delta: dwheel }),
    {
        SyntheticInput::Wheel { horizontal: true, delta: dwheel }
    }
}

pub const MOUSEEVENTF_LEFTDOWN: u32 = 0x0002;
pub const MOUSEEVENTF_LEFTUP: u32 = 0x0004;
pub const MOUSEEVENTF_RIGHTDOWN: u32 = 0x0008;
pub const MOUSEEVENTF_RIGHTUP: u32 = 0x0010;
pub const MOUSEEVENTF_MIDDLEDOWN: u32 = 0x0020;
pub const MOUSEEVENTF_MIDDLEUP: u32 = 0x0040;
pub const MOUSEEVENTF_XDOWN: u32 = 0x0080;
pub const MOUSEEVENTF_XUP: u32 = 0x0100;
pub const MOUSEEVENTF_WHEEL: u32 = 0x0800;

/// The flags and mouse data of the synthetic Windows mouse event that presses
/// (`down`) or releases a button. The side buttons carry their number in the
/// mouse data; pressing a wheel direction turns the wheel one click, and
/// releasing it sends nothing. A button with a raw code has no Windows event.
pub open spec fn windows_button_event(button: MouseButton, down: bool) -> Option<(u32, i32)> {
    match button {
        MouseButton::LeftButton => Some(
            (if down { MOUSEEVENTF_LEFTDOWN } else { MOUSEEVENTF_LEFTUP }, 0i32),
        ),
        MouseButton::RightButton => Some(
            (if down { MOUSEEVENTF_RIGHTDOWN } else { MOUSEEVENTF_RIGHTUP }, 0i32),
        ),
        MouseButton::MiddleButton => Some(
            (if down { MOUSEEVENTF_MIDDLEDOWN } else { MOUSEEVENTF_MIDDLEUP }, 0i32),
        ),
        MouseButton::X1Button => Some(
            (if down { MOUSEEVENTF_XDOWN } else { MOUSEEVENTF_XUP }, 1i32),
        ),
        MouseButton::X2Button => Some(
            (if down { MOUSEEVENTF_XDOWN } else { MOUSEEVENTF_XUP }, 2i32),
        ),
        MouseButton::MousewheelUp => if down {
            Some((MOUSEEVENTF_WHEEL, 120i32))
        } else {
            None
        },
        MouseButton::MousewheelDown => if down {
            Some((MOUSEEVENTF_WHEEL, -120i32))
        } else {
            None
        },
        MouseButton::OtherButton(_) => None,
    }
}

/// The synthetic Windows mouse event of a button press or release.
pub fn windows_button_input(button: MouseButton, down: bool) -> (r: Option<(u32, i32)>)
    ensures
        r == windows_button_event(button, down),
{
    match button {
        MouseButton::LeftButton => Some(
            (if down { MOUSEEVENTF_LEFTDOWN } else { MOUSEEVENTF_LEFTUP }, 0i32),
        ),
        MouseButton::RightButton => Some(
            (if down { MOUSEEVENTF_RIGHTDOWN } else { MOUSEEVENTF_RIGHTUP }, 0i32),
        ),
        MouseButton::MiddleButton => Some(
            (if down { MOUSEEVENTF_MIDDLEDOWN } else { MOUSEEVENTF_MIDDLEUP }, 0i32),
        ),
        MouseButton::X1Button => Some(
            (if down { MOUSEEVENTF_XDOWN } else { MOUSEEVENTF_XUP }, 1i32),
        ),
        MouseButton::X2Button => Some(
            (if down { MOUSEEVENTF_XDOWN } else { MOUSEEVENTF_XUP }, 2i32),
        ),
        MouseButton::MousewheelUp => if down {
            Some((MOUSEEVENTF_WHEEL, WHEEL_DELTA))
        } else {
            None
        },
        MouseButton::MousewheelDown => if down {
            Some((MOUSEEVENTF_WHEEL, -WHEEL_DELTA))
        } else {
            None
        },
        MouseButton::OtherButton(_) => None,
    }
}

/// Every named button has a Windows press event.
pub proof fn lemma_windows_press_for_named(button: MouseButton)
    requires
        button.is_named(),
    ensures
        windows_button_event(button, true) is Some,
{
}

} // verus!
