use inputbot::codes::{
    key_of_linux_event, keymap_contains, x11_keycode_of_evdev, hiword, hiword_signed, identify_mouse_message, key_message_direction, x11_wheel_button,
    WM_KEYUP, WM_LBUTTONDOWN, WM_MOUSEWHEEL, WM_SYSKEYDOWN, WM_XBUTTONUP,
};
use inputbot::synth::{
    windows_button_input, MOUSEEVENTF_LEFTUP, MOUSEEVENTF_WHEEL, MOUSEEVENTF_XDOWN, MOUSEEVENTF_XUP,
};
use inputbot::{KeybdKey, MouseButton, MouseCursor, MouseWheel, SyntheticInput};

#[test]
fn keysyms_map_both_ways() {
    assert_eq!(KeybdKey::AKey.keysym(), 0x41);
    assert_eq!(KeybdKey::BackspaceKey.keysym(), 0xFF08);
    assert_eq!(KeybdKey::PageUpKey.keysym(), 0xFF55);
    assert_eq!(KeybdKey::from_keysym(0xFF08), KeybdKey::BackspaceKey);
    assert_eq!(KeybdKey::from_keysym(0x1234), KeybdKey::OtherKey(0x1234));
    assert_eq!(KeybdKey::OtherKey(0x1234).keysym(), 0x1234);
    for k in KeybdKey::all() {
        assert_eq!(KeybdKey::from_keysym(k.keysym()), k);
    }
}

#[test]
fn x11_buttons_map_both_ways() {
    assert_eq!(MouseButton::LeftButton.x11_button(), 1);
    assert_eq!(MouseButton::from_x11_button(3), MouseButton::RightButton);
    assert_eq!(MouseButton::from_x11_button(42), MouseButton::OtherButton(42));
    for b in MouseButton::all() {
        assert_eq!(MouseButton::from_x11_button(b.x11_button()), b);
    }
    assert_eq!(MouseButton::from_evdev_code(272), MouseButton::LeftButton);
    assert_eq!(MouseButton::from_evdev_code(276), MouseButton::X2Button);
    assert_eq!(MouseButton::from_evdev_code(300), MouseButton::OtherButton(300));
    assert_eq!(x11_wheel_button(false, -1), 4);
    assert_eq!(x11_wheel_button(false, 1), 5);
    assert_eq!(x11_wheel_button(true, -1), 6);
    assert_eq!(x11_wheel_button(true, 0), 7);
}

#[test]
fn windows_messages_identify_events() {
    assert_eq!(hiword(0x0078_0000), 0x78);
    assert_eq!(hiword_signed(0xFF88_0000), -120);
    assert_eq!(hiword_signed(0x0078_1234), 120);
    assert_eq!(
        identify_mouse_message(WM_MOUSEWHEEL, 0xFF88_0000),
        Some((MouseButton::MousewheelDown, false))
    );
    assert_eq!(
        identify_mouse_message(WM_MOUSEWHEEL, 0x0078_0000),
        Some((MouseButton::MousewheelUp, false))
    );
    assert_eq!(
        identify_mouse_message(WM_XBUTTONUP, 0x0002_0000),
        Some((MouseButton::X2Button, true))
    );
    assert_eq!(identify_mouse_message(WM_XBUTTONUP, 0x0003_0000), None);
    assert_eq!(
        identify_mouse_message(WM_LBUTTONDOWN, 0),
        Some((MouseButton::LeftButton, false))
    );
    assert_eq!(identify_mouse_message(0x0200, 0), None);
    assert_eq!(key_message_direction(WM_SYSKEYDOWN), Some(true));
    assert_eq!(key_message_direction(WM_KEYUP), Some(false));
    assert_eq!(key_message_direction(0x0102), None);
}

#[test]
fn synthetic_input_descriptions() {
    assert_eq!(KeybdKey::AKey.press(), SyntheticInput::KeyDown(KeybdKey::AKey));
    assert_eq!(KeybdKey::AKey.release(), SyntheticInput::KeyUp(KeybdKey::AKey));
    assert_eq!(MouseButton::X1Button.press(), SyntheticInput::ButtonDown(MouseButton::X1Button));
    assert_eq!(MouseButton::X1Button.release(), SyntheticInput::ButtonUp(MouseButton::X1Button));
    assert_eq!(MouseCursor::move_rel(-3, 4), SyntheticInput::MoveBy { dx: -3, dy: 4 });
    assert_eq!(MouseCursor::move_abs(10, 20), SyntheticInput::MoveTo { x: 10, y: 20 });
    assert_eq!(MouseCursor::offset((100, 100), -30, 5), (70, 105));
    assert_eq!(MouseCursor::offset((i32::MAX, i32::MIN), 1, -1), (i32::MAX, i32::MIN));
    assert_eq!(
        MouseWheel::scroll_ver(3),
        SyntheticInput::Wheel { horizontal: false, delta: 360 }
    );
    assert_eq!(
        MouseWheel::scroll_hor(-2),
        SyntheticInput::Wheel { horizontal: true, delta: -240 }
    );
    assert_eq!(
        MouseWheel::scroll_ver(i32::MAX),
        SyntheticInput::Wheel { horizontal: false, delta: i32::MAX }
    );
    assert_eq!(
        MouseWheel::scroll_ver_unscaled(7),
        SyntheticInput::Wheel { horizontal: false, delta: 7 }
    );
    assert_eq!(
        MouseWheel::scroll_hor_unscaled(-7),
        SyntheticInput::Wheel { horizontal: true, delta: -7 }
    );
    assert_eq!(windows_button_input(MouseButton::LeftButton, false), Some((MOUSEEVENTF_LEFTUP, 0)));
    assert_eq!(windows_button_input(MouseButton::X1Button, true), Some((MOUSEEVENTF_XDOWN, 1)));
    assert_eq!(windows_button_input(MouseButton::X2Button, false), Some((MOUSEEVENTF_XUP, 2)));
    assert_eq!(
        windows_button_input(MouseButton::MousewheelDown, true),
        Some((MOUSEEVENTF_WHEEL, -120))
    );
    assert_eq!(windows_button_input(MouseButton::MousewheelUp, false), None);
    assert_eq!(windows_button_input(MouseButton::OtherButton(9), true), None);
    for b in MouseButton::all() {
        assert!(windows_button_input(b, true).is_some());
    }
}

#[test]
fn lock_keys_read_their_indicator() {
    assert!(KeybdKey::CapsLockKey.is_toggled(1));
    assert!(!KeybdKey::CapsLockKey.is_toggled(6));
    assert!(KeybdKey::NumLockKey.is_toggled(2));
    assert!(KeybdKey::ScrollLockKey.is_toggled(4));
    assert!(!KeybdKey::AKey.is_toggled(0xFF));
}

#[test]
fn keymap_bits_and_keycodes() {
    let mut keymap = [0u8; 32];
    keymap[4] = 0b0000_0100;
    assert!(keymap_contains(&keymap, 34));
    assert!(!keymap_contains(&keymap, 33));
    assert!(!keymap_contains(&keymap, 255));
    keymap[31] = 0x80;
    assert!(keymap_contains(&keymap, 255));
    assert_eq!(x11_keycode_of_evdev(30), Some(38));
    assert_eq!(x11_keycode_of_evdev(247), Some(255));
    assert_eq!(x11_keycode_of_evdev(248), None);
}

#[test]
fn virtual_keys_map_both_ways() {
    assert_eq!(KeybdKey::AKey.virtual_key(), 0x41);
    assert_eq!(KeybdKey::EnterKey.virtual_key(), 0x0D);
    assert_eq!(KeybdKey::F24Key.virtual_key(), 0x87);
    assert_eq!(KeybdKey::from_virtual_key(0xA0), KeybdKey::LShiftKey);
    assert_eq!(KeybdKey::from_virtual_key(0xFF), KeybdKey::OtherKey(0xFF));
    for k in KeybdKey::all() {
        assert_eq!(KeybdKey::from_virtual_key(k.virtual_key()), k);
    }
}

#[test]
fn linux_key_events_keep_unmapped_codes() {
    assert_eq!(key_of_linux_event(30, Some(0x61)), KeybdKey::OtherKey(0x61));
    assert_eq!(key_of_linux_event(30, Some(0x41)), KeybdKey::AKey);
    assert_eq!(key_of_linux_event(300, None), KeybdKey::OtherKey(300));
    assert_eq!(key_of_linux_event(120, Some(0)), KeybdKey::OtherKey(120));
}
