use corenet::control::InjectorCommand;
use corenet::discovery::{
    DiscoveredHost, Discovery, DiscoveryError, DiscoveryEvent, IpAddress, SERVICE_TYPE,
};
use corenet::input::evdev::{
    injection_events, type_char_events, update_modifiers, EvdevTranslator, InputEventRaw, RawEvent,
    BTN_LEFT, BTN_MIDDLE, EV_ABS, EV_KEY, EV_REL, EV_SYN, KEY_CAPSLOCK, KEY_LEFTSHIFT, KEY_NUMLOCK,
    KEY_RIGHTCTRL, REL_HWHEEL, REL_WHEEL, REL_X, REL_Y, SYN_REPORT,
};
use corenet::input::InputEvent;
use corenet::network::PeerAddr;
use corenet::protocol::{Modifiers, MouseButton, ScreenInfo};

fn raw(type_: u16, code: u16, value: i32) -> InputEventRaw {
    InputEventRaw { tv_sec: 12, tv_usec: 345, type_, code, value }
}

const SYNC: RawEvent = RawEvent { type_: EV_SYN, code: SYN_REPORT, value: 0 };

#[test]
fn test_raw_timestamp() {
    assert_eq!(raw(0, 0, 0).timestamp_us(), 12_000_345);
    let negative = InputEventRaw { tv_sec: -1, tv_usec: 5, type_: 0, code: 0, value: 0 };
    assert_eq!(negative.timestamp_us(), 0);
    let huge = InputEventRaw { tv_sec: i64::MAX, tv_usec: 5, type_: 0, code: 0, value: 0 };
    assert_eq!(huge.timestamp_us(), u64::MAX);
}

#[test]
fn test_translator_gathers_movement_until_the_report_ends() {
    let mut translator = EvdevTranslator::new();
    assert!(translator.translate(&raw(EV_REL, REL_X, 5)).is_none());
    assert!(translator.translate(&raw(EV_REL, REL_Y, -3)).is_none());
    assert!(translator.translate(&raw(EV_REL, REL_X, 2)).is_none());
    match translator.translate(&raw(EV_SYN, SYN_REPORT, 0)) {
        Some(InputEvent::MouseMove(motion)) => {
            assert_eq!(motion.timestamp, 12_000_345);
            assert_eq!((motion.x, motion.y), (Some(7), Some(-3)));
            assert_eq!((motion.dx, motion.dy), (7, -3));
        }
        other => panic!("unexpected {:?}", other),
    }
    // Nothing gathered, nothing reported.
    assert!(translator.translate(&raw(EV_SYN, SYN_REPORT, 0)).is_none());
    assert!(translator.translate(&raw(EV_REL, REL_X, 1)).is_none());
    match translator.translate(&raw(EV_SYN, SYN_REPORT, 0)) {
        Some(InputEvent::MouseMove(motion)) => {
            assert_eq!((motion.x, motion.y), (Some(8), Some(-3)));
            assert_eq!((motion.dx, motion.dy), (1, 0));
        }
        other => panic!("unexpected {:?}", other),
    }
    // A sync of another code is no end of a report.
    assert!(translator.translate(&raw(EV_REL, REL_X, 1)).is_none());
    assert!(translator.translate(&raw(EV_SYN, 3, 0)).is_none());
    assert_eq!(translator.rel_x, 1);
}

#[test]
fn test_translator_scroll_buttons_and_keys() {
    let mut translator = EvdevTranslator::new();
    assert!(matches!(
        translator.translate(&raw(EV_REL, REL_WHEEL, -2)),
        Some(InputEvent::MouseScroll(scroll)) if scroll.dx == 0 && scroll.dy == -2
    ));
    assert!(matches!(
        translator.translate(&raw(EV_REL, REL_HWHEEL, 4)),
        Some(InputEvent::MouseScroll(scroll)) if scroll.dx == 4 && scroll.dy == 0
    ));
    assert!(translator.translate(&raw(EV_REL, 0x07, 4)).is_none());
    translator.translate(&raw(EV_REL, REL_X, 40));
    match translator.translate(&raw(EV_KEY, BTN_MIDDLE, 1)) {
        Some(InputEvent::MouseButton(button)) => {
            assert_eq!(button.button, MouseButton::Middle);
            assert!(button.pressed);
            assert_eq!((button.x, button.y), (40, 0));
        }
        other => panic!("unexpected {:?}", other),
    }
    assert!(matches!(
        translator.translate(&raw(EV_KEY, BTN_LEFT, 0)),
        Some(InputEvent::MouseButton(button)) if button.button == MouseButton::Left && !button.pressed
    ));
    // Button codes without a button are dropped.
    assert!(translator.translate(&raw(EV_KEY, 0x115, 1)).is_none());
    assert!(translator.translate(&raw(EV_KEY, 0x117, 1)).is_none());
    // Shift goes down, then the key A.
    match translator.translate(&raw(EV_KEY, KEY_LEFTSHIFT, 1)) {
        Some(InputEvent::Keyboard(key)) => {
            assert_eq!(key.keycode, 0xE1);
            assert_eq!(key.scancode, 42);
            assert!(key.pressed);
            assert!(key.modifiers.shift);
        }
        other => panic!("unexpected {:?}", other),
    }
    match translator.translate(&raw(EV_KEY, 30, 1)) {
        Some(InputEvent::Keyboard(key)) => {
            assert_eq!(key.keycode, 0x04);
            assert_eq!(key.scancode, 30);
            assert_eq!(key.character, None);
            assert!(key.modifiers.shift);
            assert!(!key.modifiers.ctrl);
        }
        other => panic!("unexpected {:?}", other),
    }
    translator.translate(&raw(EV_KEY, KEY_LEFTSHIFT, 0));
    assert!(!translator.modifiers.shift);
    // The locks are not tracked by the translator.
    translator.translate(&raw(EV_KEY, KEY_CAPSLOCK, 1));
    assert!(!translator.modifiers.caps_lock);
    // Other event types mean nothing.
    assert!(translator.translate(&raw(EV_ABS, 0, 100)).is_none());
}

#[test]
fn test_update_modifiers() {
    let none = Modifiers::default();
    assert!(update_modifiers(none, KEY_LEFTSHIFT, true).shift);
    assert!(update_modifiers(none, KEY_RIGHTCTRL, true).ctrl);
    assert!(!update_modifiers(Modifiers { ctrl: true, ..none }, KEY_RIGHTCTRL, false).ctrl);
    assert!(update_modifiers(none, 56, true).alt);
    assert!(update_modifiers(none, 126, true).meta);
    let locked = update_modifiers(none, KEY_CAPSLOCK, true);
    assert!(locked.caps_lock);
    assert!(update_modifiers(locked, KEY_CAPSLOCK, false).caps_lock);
    assert!(!update_modifiers(locked, KEY_CAPSLOCK, true).caps_lock);
    assert!(update_modifiers(none, KEY_NUMLOCK, true).num_lock);
    assert_eq!(update_modifiers(none, 30, true), none);
}

#[test]
fn test_injection_events() {
    assert_eq!(
        injection_events(InjectorCommand::MouseMoveRelative { dx: 3, dy: -4 }),
        vec![
            RawEvent { type_: EV_REL, code: REL_X, value: 3 },
            RawEvent { type_: EV_REL, code: REL_Y, value: -4 },
            SYNC
        ]
    );
    assert_eq!(
        injection_events(InjectorCommand::MouseMoveRelative { dx: 0, dy: 9 }),
        vec![RawEvent { type_: EV_REL, code: REL_Y, value: 9 }, SYNC]
    );
    assert_eq!(injection_events(InjectorCommand::MouseMoveRelative { dx: 0, dy: 0 }), vec![SYNC]);
    assert_eq!(
        injection_events(InjectorCommand::MouseMoveAbsolute { x: 0, y: 540 }),
        vec![
            RawEvent { type_: EV_ABS, code: 0, value: 0 },
            RawEvent { type_: EV_ABS, code: 1, value: 540 },
            SYNC
        ]
    );
    assert_eq!(
        injection_events(InjectorCommand::MouseButton { button: MouseButton::Button5, pressed: true }),
        vec![RawEvent { type_: EV_KEY, code: 0x114, value: 1 }, SYNC]
    );
    assert_eq!(
        injection_events(InjectorCommand::MouseScroll { dx: 2, dy: -1 }),
        vec![
            RawEvent { type_: EV_REL, code: REL_WHEEL, value: -1 },
            RawEvent { type_: EV_REL, code: REL_HWHEEL, value: 2 },
            SYNC
        ]
    );
    let shift = Modifiers { shift: true, ..Modifiers::default() };
    assert_eq!(
        injection_events(InjectorCommand::KeyDown { keycode: 0x04, modifiers: shift }),
        vec![RawEvent { type_: EV_KEY, code: 30, value: 1 }, SYNC]
    );
    assert_eq!(
        injection_events(InjectorCommand::KeyUp { keycode: 0x28, modifiers: shift }),
        vec![RawEvent { type_: EV_KEY, code: 28, value: 0 }, SYNC]
    );
}

#[test]
fn test_type_char_events() {
    let key = |code: u16, value: i32| RawEvent { type_: EV_KEY, code, value };
    assert_eq!(type_char_events('a'), vec![key(30, 1), SYNC, key(30, 0), SYNC]);
    assert_eq!(
        type_char_events('?'),
        vec![
            key(KEY_LEFTSHIFT, 1),
            SYNC,
            key(53, 1),
            SYNC,
            key(53, 0),
            SYNC,
            key(KEY_LEFTSHIFT, 0),
            SYNC
        ]
    );
    assert!(type_char_events('é').is_empty());
}

fn host(id: &str, name: &str) -> DiscoveredHost {
    DiscoveredHost {
        host_id: id.to_string(),
        host_name: name.to_string(),
        addresses: vec![
            IpAddress { v6: false, ip: 0xC0A8_0105 },
            IpAddress { v6: true, ip: 1 },
        ],
        port: 24800,
        screen_width: 2560,
        screen_height: 1600,
        properties: vec![("version".to_string(), "1".to_string())],
    }
}

#[test]
fn test_discovered_host() {
    assert_eq!(SERVICE_TYPE, "_corenet._tcp.local.");
    let found = host("desk", "Desk");
    assert_eq!(found.socket_addr(), Some(PeerAddr { v6: false, ip: 0xC0A8_0105, port: 24800 }));
    let info: ScreenInfo = found.to_screen_info();
    assert_eq!(info.host_id, "desk");
    assert_eq!(info.host_name, "Desk");
    assert_eq!((info.width, info.height), (2560, 1600));
    let nowhere = DiscoveredHost { addresses: Vec::new(), ..found };
    assert_eq!(nowhere.socket_addr(), None);
}

#[test]
fn test_discovery_registry() {
    let mut discovery =
        Discovery::new(ScreenInfo::new("me".to_string(), "Me".to_string(), 1, 1), 24800);
    assert!(!discovery.is_running());
    assert!(matches!(discovery.stop(), Err(DiscoveryError::NotRunning)));
    discovery.start().unwrap();
    assert!(discovery.is_running());
    assert!(matches!(discovery.start(), Err(DiscoveryError::AlreadyRunning)));

    assert!(discovery.add_manual_host(host("a", "Host A")));
    assert!(discovery.add_manual_host(host("b", "Host B")));
    assert!(!discovery.add_manual_host(host("a", "Renamed")));
    assert_eq!(discovery.discovered_hosts().len(), 2);
    assert_eq!(discovery.get_host("a").unwrap().host_name, "Renamed");
    assert_eq!(discovery.get_host("b").unwrap().host_name, "Host B");
    assert!(discovery.get_host("c").is_none());

    match discovery.remove_host("a") {
        Some(DiscoveryEvent::HostLost(id)) => assert_eq!(id, "a"),
        other => panic!("unexpected {:?}", other),
    }
    assert!(discovery.remove_host("a").is_none());
    assert!(discovery.get_host("a").is_none());
    assert_eq!(discovery.discovered_hosts().len(), 1);
    discovery.stop().unwrap();
    assert!(!discovery.is_running());

    assert_eq!(DiscoveryError::Mdns("x".to_string()).message(), "mDNS error: x");
    assert_eq!(
        DiscoveryError::Registration("x".to_string()).message(),
        "Service registration failed: x"
    );
    assert_eq!(DiscoveryError::AlreadyRunning.message(), "Already running");
    assert_eq!(DiscoveryError::NotRunning.message(), "Not running");
}
