use corenet::input::keycodes;
use corenet::input::{
    InputError, InputEvent, KeyboardEvent, KeyboardState, MouseButtonEvent, MouseMoveEvent,
    MouseScrollEvent, MouseState,
};
use corenet::protocol::{Modifiers, MouseButton};
use corenet::text::decimal;

#[test]
fn test_event_kinds_and_timestamps() {
    let events = vec![
        (
            InputEvent::MouseMove(MouseMoveEvent { timestamp: 11, x: None, y: None, dx: 1, dy: 2 }),
            11,
            true,
        ),
        (
            InputEvent::MouseButton(MouseButtonEvent {
                timestamp: 22,
                button: MouseButton::Left,
                pressed: true,
                x: 0,
                y: 0,
            }),
            22,
            true,
        ),
        (InputEvent::MouseScroll(MouseScrollEvent { timestamp: 33, dx: 0, dy: 1 }), 33, true),
        (
            InputEvent::Keyboard(KeyboardEvent {
                timestamp: 44,
                keycode: keycodes::KEY_A,
                scancode: 30,
                pressed: true,
                character: Some('a'),
                modifiers: Modifiers::default(),
            }),
            44,
            false,
        ),
    ];
    for (event, timestamp, mouse) in events {
        assert_eq!(event.timestamp(), timestamp);
        assert_eq!(event.is_mouse(), mouse);
        assert_eq!(event.is_keyboard(), !mouse);
    }
}

#[test]
fn test_mouse_state() {
    let mut state = MouseState::new();
    assert_eq!((state.x, state.y), (0, 0));
    let buttons = [
        MouseButton::Left,
        MouseButton::Right,
        MouseButton::Middle,
        MouseButton::Button4,
        MouseButton::Button5,
    ];
    for button in buttons {
        assert!(!state.is_button_pressed(button));
    }
    state.set_button(MouseButton::Middle, true);
    state.set_button(MouseButton::Button5, true);
    for button in buttons {
        assert_eq!(
            state.is_button_pressed(button),
            button == MouseButton::Middle || button == MouseButton::Button5
        );
    }
    state.set_button(MouseButton::Middle, false);
    assert!(!state.is_button_pressed(MouseButton::Middle));
    assert!(state.is_button_pressed(MouseButton::Button5));
    assert_eq!(MouseState::default().buttons, [false; 5]);
}

#[test]
fn test_keyboard_state() {
    let mut state = KeyboardState::new();
    assert!(!state.is_key_pressed(keycodes::KEY_A));
    assert_eq!(state.modifiers, Modifiers::default());
    state.key_down(keycodes::KEY_A);
    state.key_down(keycodes::KEY_LEFT_SHIFT);
    state.key_down(keycodes::KEY_A);
    assert!(state.is_key_pressed(keycodes::KEY_A));
    assert!(state.is_key_pressed(keycodes::KEY_LEFT_SHIFT));
    assert!(!state.is_key_pressed(keycodes::KEY_B));
    assert_eq!(state.pressed_keys.len(), 2);
    state.key_up(keycodes::KEY_A);
    assert!(!state.is_key_pressed(keycodes::KEY_A));
    assert!(state.is_key_pressed(keycodes::KEY_LEFT_SHIFT));
    state.key_up(keycodes::KEY_B);
    assert_eq!(state.pressed_keys.len(), 1);
    assert!(KeyboardState::default().pressed_keys.is_empty());
}

#[test]
fn test_keycodes_are_hid_usages() {
    assert_eq!(keycodes::KEY_A, 0x04);
    assert_eq!(keycodes::KEY_Z, 0x1D);
    assert_eq!(keycodes::KEY_1, 0x1E);
    assert_eq!(keycodes::KEY_0, 0x27);
    assert_eq!(keycodes::KEY_ENTER, 0x28);
    assert_eq!(keycodes::KEY_SPACE, 0x2C);
    assert_eq!(keycodes::KEY_F1, 0x3A);
    assert_eq!(keycodes::KEY_F12, 0x45);
    assert_eq!(keycodes::KEY_UP_ARROW, 0x52);
    assert_eq!(keycodes::KEY_LEFT_CTRL, 0xE0);
    assert_eq!(keycodes::KEY_RIGHT_META, 0xE7);
}

#[test]
fn test_input_error_messages() {
    assert_eq!(
        InputError::PermissionDenied("input group".to_string()).message(),
        "Permission denied: input group"
    );
    assert_eq!(
        InputError::DeviceNotFound("/dev/uinput".to_string()).message(),
        "Device not found: /dev/uinput"
    );
    assert_eq!(InputError::Platform("x".to_string()).message(), "Platform error: x");
    assert_eq!(InputError::NotSupported.message(), "Not supported on this platform");
    assert_eq!(InputError::AlreadyStarted.message(), "Input capture already started");
    assert_eq!(InputError::NotStarted.message(), "Input capture not started");
    assert_eq!(InputError::Io("x".to_string()).message(), "IO error: x");
}

#[test]
fn test_decimal() {
    assert_eq!(decimal(0), "0");
    assert_eq!(decimal(7), "7");
    assert_eq!(decimal(10), "10");
    assert_eq!(decimal(24800), "24800");
    assert_eq!(decimal(1234567890), "1234567890");
    assert_eq!(decimal(u64::MAX), "18446744073709551615");
}

#[test]
fn test_linux_keycodes() {
    assert_eq!(corenet::input::keymap_linux::hid_to_linux_keycode(0x04), 30);
    assert_eq!(corenet::input::keymap_linux::hid_to_linux_keycode(0x28), 28);
    assert_eq!(corenet::input::keymap_linux::hid_to_linux_keycode(0xE7), 126);
    assert_eq!(corenet::input::keymap_linux::hid_to_linux_keycode(0x32), 0);
    assert_eq!(corenet::input::keymap_linux::hid_to_linux_keycode(0xFFFF), 0);
    assert_eq!(corenet::input::keymap_linux::linux_to_hid_keycode(30), 0x04);
    assert_eq!(corenet::input::keymap_linux::linux_to_hid_keycode(126), 0xE7);
    assert_eq!(corenet::input::keymap_linux::linux_to_hid_keycode(200), 200);
    for hid in 0u32..0x100 {
        let linux = corenet::input::keymap_linux::hid_to_linux_keycode(hid);
        if linux != 0 {
            assert_eq!(corenet::input::keymap_linux::linux_to_hid_keycode(linux), hid);
        }
    }
}

#[test]
fn test_linux_char_to_keycode() {
    assert_eq!(corenet::input::keymap_linux::char_to_keycode('a'), Some((30, false)));
    assert_eq!(corenet::input::keymap_linux::char_to_keycode('z'), Some((55, false)));
    assert_eq!(corenet::input::keymap_linux::char_to_keycode('A'), Some((30, true)));
    assert_eq!(corenet::input::keymap_linux::char_to_keycode('0'), Some((11, false)));
    assert_eq!(corenet::input::keymap_linux::char_to_keycode('1'), Some((2, false)));
    assert_eq!(corenet::input::keymap_linux::char_to_keycode('9'), Some((10, false)));
    assert_eq!(corenet::input::keymap_linux::char_to_keycode(' '), Some((57, false)));
    assert_eq!(corenet::input::keymap_linux::char_to_keycode('\n'), Some((28, false)));
    assert_eq!(corenet::input::keymap_linux::char_to_keycode('?'), Some((53, true)));
    assert_eq!(corenet::input::keymap_linux::char_to_keycode('~'), Some((41, true)));
    assert_eq!(corenet::input::keymap_linux::char_to_keycode('é'), None);
}

#[test]
fn test_macos_and_windows_keycodes() {
    assert_eq!(corenet::input::keymap_macos::macos_to_hid_keycode(0), 0x04);
    assert_eq!(corenet::input::keymap_macos::hid_to_macos_keycode(0x04), 0);
    assert_eq!(corenet::input::keymap_macos::macos_to_hid_keycode(11), 0x05);
    assert_eq!(corenet::input::keymap_macos::macos_to_hid_keycode(1000), 1000);
    assert_eq!(corenet::input::keymap_macos::hid_to_macos_keycode(1000), 1000);
    assert_eq!(corenet::input::keymap_windows::windows_vk_to_hid(0x41), 0x04);
    assert_eq!(corenet::input::keymap_windows::hid_to_windows_vk(0x04), 0x41);
    assert_eq!(corenet::input::keymap_windows::hid_to_windows_vk(0xE7), 0x5C);
    assert_eq!(corenet::input::keymap_windows::windows_vk_to_hid(0x5C), 0xE7);
    assert_eq!(corenet::input::keymap_windows::windows_vk_to_hid(0x1234), 0x1234);
    for hid in [0x04u32, 0x1D, 0x27, 0x28, 0x2C, 0x4F, 0x52, 0xE0, 0xE7] {
        let vk = corenet::input::keymap_windows::hid_to_windows_vk(hid);
        assert_eq!(corenet::input::keymap_windows::windows_vk_to_hid(vk), hid);
        let mac = corenet::input::keymap_macos::hid_to_macos_keycode(hid);
        assert_eq!(corenet::input::keymap_macos::macos_to_hid_keycode(mac), hid);
    }
}
