use corenet::control::{
    input_event_to_message, ControlState, Controller, ControllerAction, Follower, FollowerAction,
    FollowerControlState, InjectorCommand,
};
use corenet::input::{InputEvent, KeyboardEvent, MouseButtonEvent, MouseMoveEvent, MouseScrollEvent};
use corenet::network::PeerAddr;
use corenet::protocol::{Message, Modifiers, MouseButton, ScreenEdge, ScreenInfo};
use corenet::screen::{EdgeDetectorConfig, EdgePosition};

const MS: u128 = 1_000_000;

fn screen(id: &str) -> ScreenInfo {
    ScreenInfo::new(id.to_string(), format!("Host {}", id), 1920, 1080)
}

fn peer(last: u8) -> PeerAddr {
    PeerAddr { v6: false, ip: 0x0A00_0000 + last as u128, port: 40000 }
}

fn cursor(x: i32, y: i32) -> InputEvent {
    InputEvent::MouseMove(MouseMoveEvent { timestamp: 1, x: Some(x), y: Some(y), dx: 3, dy: -4 })
}

fn key(pressed: bool) -> InputEvent {
    InputEvent::Keyboard(KeyboardEvent {
        timestamp: 2,
        keycode: 0x04,
        scancode: 30,
        pressed,
        character: Some('a'),
        modifiers: Modifiers { shift: true, ..Modifiers::default() },
    })
}

#[test]
fn test_input_event_to_message() {
    assert!(matches!(
        input_event_to_message(&cursor(10, 20)),
        Some(Message::MouseMoveRelative { dx: 3, dy: -4 })
    ));
    let button = InputEvent::MouseButton(MouseButtonEvent {
        timestamp: 1,
        button: MouseButton::Right,
        pressed: true,
        x: 5,
        y: 6,
    });
    assert!(matches!(
        input_event_to_message(&button),
        Some(Message::MouseButton { button: MouseButton::Right, pressed: true })
    ));
    let scroll = InputEvent::MouseScroll(MouseScrollEvent { timestamp: 1, dx: 0, dy: -2 });
    assert!(matches!(
        input_event_to_message(&scroll),
        Some(Message::MouseScroll { dx: 0, dy: -2 })
    ));
    match input_event_to_message(&key(true)) {
        Some(Message::KeyDown { keycode, character, modifiers }) => {
            assert_eq!(keycode, 0x04);
            assert_eq!(character, Some('a'));
            assert!(modifiers.shift);
        }
        other => panic!("unexpected {:?}", other),
    }
    match input_event_to_message(&key(false)) {
        Some(Message::KeyUp { keycode, modifiers }) => {
            assert_eq!(keycode, 0x04);
            assert!(modifiers.shift);
        }
        other => panic!("unexpected {:?}", other),
    }
}

#[test]
fn test_control_transfer_round_trip() {
    // Primary A and secondary B, both 1920x1080, B to the right of A.
    let mut a = Controller::new(screen("A"), EdgeDetectorConfig::default());
    let mut b = Follower::new(EdgeDetectorConfig::default(), 1920, 1080);
    let b_addr = peer(2);
    let actions = a.on_client_connected(b_addr, screen("B"));
    assert_eq!(actions.len(), 1);
    match &actions[0] {
        ControllerAction::ClientConnected { host_name, addr, clients } => {
            assert_eq!(host_name, "Host B");
            assert_eq!(*addr, b_addr);
            assert_eq!(*clients, 1);
        }
        other => panic!("unexpected {:?}", other),
    }
    assert_eq!(a.control(), ControlState::Local);
    assert!(!a.is_suppressing());

    // The cursor reaches A's right edge.
    let actions = a.on_input(&cursor(1919, 540), 0);
    assert_eq!(actions.len(), 3);
    let enter = match &actions[0] {
        ControllerAction::Send { to, message } => {
            assert_eq!(*to, b_addr);
            message.clone()
        }
        other => panic!("unexpected {:?}", other),
    };
    match &enter {
        Message::EnterScreen { edge, position } => {
            assert_eq!(*edge, ScreenEdge::Left);
            assert_eq!(*position, EdgePosition { numer: 540, denom: 1080 });
        }
        other => panic!("unexpected {:?}", other),
    }
    assert!(matches!(actions[1], ControllerAction::SetSuppress(true)));
    match &actions[2] {
        ControllerAction::CursorMovedTo { host_name } => assert_eq!(host_name, "Host B"),
        other => panic!("unexpected {:?}", other),
    }
    assert_eq!(a.control(), ControlState::Remote(b_addr));
    assert!(a.is_suppressing());

    // On B the cursor jumps to (0, 540).
    let actions = b.on_message(enter, 0);
    assert_eq!(actions.len(), 2);
    assert!(matches!(
        actions[0],
        FollowerAction::Inject(InjectorCommand::MouseMoveAbsolute { x: 0, y: 540 })
    ));
    assert!(matches!(actions[1], FollowerAction::CursorEntered));
    assert_eq!(
        b.control(),
        FollowerControlState {
            has_control: true,
            entry_edge: ScreenEdge::Left,
            cursor_x: 0,
            cursor_y: 540
        }
    );

    // A forwards what it captures.
    let actions = a.on_input(&cursor(1919, 540), MS);
    assert_eq!(actions.len(), 1);
    assert!(matches!(
        &actions[0],
        ControllerAction::Send { to, message: Message::MouseMoveRelative { dx: 3, dy: -4 } }
            if *to == b_addr
    ));

    // A movement to the left arrives on B: the cursor stays at the edge,
    // and B hands control back.
    let actions = b.on_message(Message::MouseMoveRelative { dx: -5, dy: 0 }, 2 * MS);
    assert_eq!(actions.len(), 3);
    assert!(matches!(
        actions[0],
        FollowerAction::Inject(InjectorCommand::MouseMoveRelative { dx: -5, dy: 0 })
    ));
    let leave = match &actions[1] {
        FollowerAction::Send(message) => message.clone(),
        other => panic!("unexpected {:?}", other),
    };
    match &leave {
        Message::LeaveScreen { edge, position } => {
            assert_eq!(*edge, ScreenEdge::Left);
            assert_eq!(*position, EdgePosition { numer: 540, denom: 1080 });
        }
        other => panic!("unexpected {:?}", other),
    }
    assert!(matches!(actions[2], FollowerAction::CursorReturned));
    assert_eq!(
        b.control(),
        FollowerControlState {
            has_control: false,
            entry_edge: ScreenEdge::Left,
            cursor_x: 0,
            cursor_y: 540
        }
    );

    // A takes control back and puts its cursor at the right edge.
    let actions = a.on_message(b_addr, leave);
    assert_eq!(actions.len(), 2);
    assert!(matches!(actions[0], ControllerAction::SetSuppress(false)));
    assert!(matches!(actions[1], ControllerAction::MoveCursor { x: 1919, y: 540 }));
    assert_eq!(a.control(), ControlState::Local);
    assert!(!a.is_suppressing());
}

#[test]
fn test_controller_ignores_edges_without_a_peer() {
    let mut controller = Controller::new(screen("A"), EdgeDetectorConfig::default());
    // No client at all.
    assert!(controller.on_input(&cursor(1919, 540), 0).is_empty());
    assert_eq!(controller.control(), ControlState::Local);
    controller.on_client_connected(peer(2), screen("B"));
    // A client, but the cursor leaves by the left edge.
    assert!(controller.on_input(&cursor(500, 500), MS).is_empty());
    assert!(controller.on_input(&cursor(0, 540), 2 * MS).is_empty());
    assert_eq!(controller.control(), ControlState::Local);
    assert!(!controller.is_suppressing());
    // Other events are left alone under local control.
    assert!(controller.on_input(&key(true), 3 * MS).is_empty());
    let relative_only =
        InputEvent::MouseMove(MouseMoveEvent { timestamp: 1, x: None, y: Some(5), dx: 1, dy: 1 });
    assert!(controller.on_input(&relative_only, 4 * MS).is_empty());
}

#[test]
fn test_controller_follows_the_layout() {
    let mut controller = Controller::new(screen("A"), EdgeDetectorConfig::default());
    controller.on_client_connected(peer(2), screen("B"));
    controller.on_client_connected(peer(3), screen("C"));
    assert_eq!(controller.clients().len(), 2);
    assert_eq!(controller.layout().host_count(), 3);
    // Unconfigured: the right edge leads to the first client.
    let actions = controller.on_input(&cursor(1919, 100), 0);
    assert!(matches!(&actions[0], ControllerAction::Send { to, .. } if *to == peer(2)));
    assert_eq!(controller.control(), ControlState::Remote(peer(2)));
}

#[test]
fn test_controller_reverts_when_peer_is_lost() {
    let mut controller = Controller::new(screen("A"), EdgeDetectorConfig::default());
    controller.on_client_connected(peer(2), screen("B"));
    controller.on_client_connected(peer(3), screen("C"));
    controller.on_input(&cursor(1919, 540), 0);
    assert_eq!(controller.control(), ControlState::Remote(peer(2)));

    // Another client goes: nothing changes for control.
    let actions = controller.on_client_disconnected(peer(3), "Connection closed".to_string());
    assert_eq!(actions.len(), 1);
    match &actions[0] {
        ControllerAction::ClientDisconnected { addr, reason } => {
            assert_eq!(*addr, peer(3));
            assert_eq!(reason, "Connection closed");
        }
        other => panic!("unexpected {:?}", other),
    }
    assert!(controller.is_suppressing());

    // A message from a host that does not have control is ignored.
    let leave = Message::LeaveScreen {
        edge: ScreenEdge::Left,
        position: EdgePosition { numer: 1, denom: 2 },
    };
    assert!(controller.on_message(peer(3), leave.clone()).is_empty());
    assert_eq!(controller.control(), ControlState::Remote(peer(2)));
    // So is every message but LeaveScreen.
    assert!(controller.on_message(peer(2), Message::ClipboardRequest).is_empty());
    assert!(controller.is_suppressing());

    // A failed send to another address changes nothing, one to the peer
    // brings control back.
    assert!(controller.on_send_failed(peer(3)).is_empty());
    let actions = controller.on_send_failed(peer(2));
    assert_eq!(actions.len(), 1);
    assert!(matches!(actions[0], ControllerAction::SetSuppress(false)));
    assert_eq!(controller.control(), ControlState::Local);
    assert!(!controller.is_suppressing());

    // Again, and this time the peer disconnects.
    controller.on_input(&cursor(500, 540), MS);
    controller.on_input(&cursor(1919, 540), 2 * MS);
    assert_eq!(controller.control(), ControlState::Remote(peer(2)));
    let actions = controller.on_client_disconnected(peer(2), "Error: reset".to_string());
    assert_eq!(actions.len(), 2);
    assert!(matches!(actions[0], ControllerAction::SetSuppress(false)));
    assert!(matches!(actions[1], ControllerAction::ClientDisconnected { .. }));
    assert_eq!(controller.control(), ControlState::Local);
    assert!(!controller.is_suppressing());
    assert!(controller.clients().is_empty());
    assert_eq!(controller.layout().host_count(), 1);
}

#[test]
fn test_suppression_follows_control_through_a_run() {
    let mut controller = Controller::new(screen("A"), EdgeDetectorConfig::default());
    let check = |controller: &Controller| {
        assert_eq!(controller.is_suppressing(), controller.control() != ControlState::Local);
    };
    check(&controller);
    controller.on_client_connected(peer(2), screen("B"));
    check(&controller);
    for step in 0..50u128 {
        let x = if step % 7 == 3 { 1919 } else { 400 + step as i32 };
        controller.on_input(&cursor(x, 300), step * MS);
        check(&controller);
        if step % 11 == 5 {
            controller.on_message(
                peer(2),
                Message::LeaveScreen {
                    edge: ScreenEdge::Left,
                    position: EdgePosition { numer: 300, denom: 1080 },
                },
            );
            check(&controller);
        }
        if step % 13 == 12 {
            controller.on_send_failed(peer(2));
            check(&controller);
        }
    }
}

#[test]
fn test_follower_drops_input_without_control() {
    let mut follower = Follower::new(EdgeDetectorConfig::default(), 1920, 1080);
    let before = follower.control();
    assert_eq!(
        before,
        FollowerControlState {
            has_control: false,
            entry_edge: ScreenEdge::Left,
            cursor_x: 0,
            cursor_y: 0
        }
    );
    let messages = vec![
        Message::MouseMoveRelative { dx: 1, dy: 1 },
        Message::MouseMoveAbsolute { x: 5, y: 5 },
        Message::MouseButton { button: MouseButton::Left, pressed: true },
        Message::MouseScroll { dx: 0, dy: 1 },
        Message::KeyDown { keycode: 4, character: None, modifiers: Modifiers::default() },
        Message::KeyUp { keycode: 4, modifiers: Modifiers::default() },
        Message::ClipboardRequest,
    ];
    for message in messages {
        assert!(follower.on_message(message, 0).is_empty());
        assert_eq!(follower.control(), before);
    }
}

#[test]
fn test_follower_injects_with_control() {
    let mut follower = Follower::new(EdgeDetectorConfig::default(), 1920, 1080);
    let enter = Message::EnterScreen {
        edge: ScreenEdge::Top,
        position: EdgePosition { numer: 1, denom: 4 },
    };
    let actions = follower.on_message(enter, 0);
    assert!(matches!(
        actions[0],
        FollowerAction::Inject(InjectorCommand::MouseMoveAbsolute { x: 480, y: 0 })
    ));
    let shift = Modifiers { shift: true, ..Modifiers::default() };
    let cases: Vec<(Message, InjectorCommand)> = vec![
        (
            Message::MouseButton { button: MouseButton::Middle, pressed: true },
            InjectorCommand::MouseButton { button: MouseButton::Middle, pressed: true },
        ),
        (Message::MouseScroll { dx: 1, dy: -1 }, InjectorCommand::MouseScroll { dx: 1, dy: -1 }),
        (
            Message::KeyDown { keycode: 4, character: Some('A'), modifiers: shift },
            InjectorCommand::KeyDown { keycode: 4, modifiers: shift },
        ),
        (
            Message::KeyUp { keycode: 4, modifiers: shift },
            InjectorCommand::KeyUp { keycode: 4, modifiers: shift },
        ),
        (
            Message::MouseMoveAbsolute { x: 100, y: 200 },
            InjectorCommand::MouseMoveAbsolute { x: 100, y: 200 },
        ),
    ];
    for (message, command) in cases {
        let actions = follower.on_message(message, MS);
        assert_eq!(actions.len(), 1);
        match &actions[0] {
            FollowerAction::Inject(injected) => assert_eq!(*injected, command),
            other => panic!("unexpected {:?}", other),
        }
    }
    assert_eq!((follower.control().cursor_x, follower.control().cursor_y), (100, 200));
    // Messages that are no input change nothing.
    assert!(follower.on_message(Message::Heartbeat { timestamp: 1 }, MS).is_empty());
}

#[test]
fn test_follower_tracks_and_clamps_the_cursor() {
    let mut follower = Follower::new(EdgeDetectorConfig::default(), 1920, 1080);
    follower.on_message(
        Message::EnterScreen { edge: ScreenEdge::Left, position: EdgePosition { numer: 1, denom: 2 } },
        0,
    );
    let actions = follower.on_message(Message::MouseMoveRelative { dx: 100, dy: -40 }, MS);
    assert_eq!(actions.len(), 1);
    assert_eq!((follower.control().cursor_x, follower.control().cursor_y), (100, 500));
    // Far beyond the right edge: held to the last pixel. The right edge
    // is not the edge of entry, so control stays.
    let actions = follower.on_message(Message::MouseMoveRelative { dx: i32::MAX, dy: i32::MAX }, 2 * MS);
    assert_eq!(actions.len(), 1);
    assert!(matches!(
        actions[0],
        FollowerAction::Inject(InjectorCommand::MouseMoveRelative { dx: i32::MAX, dy: i32::MAX })
    ));
    assert_eq!((follower.control().cursor_x, follower.control().cursor_y), (1919, 1079));
    assert!(follower.control().has_control);
    let actions = follower.on_message(Message::MouseMoveRelative { dx: i32::MIN, dy: i32::MIN }, 3 * MS);
    // Now at the left edge, which is the edge of entry.
    assert_eq!(actions.len(), 3);
    assert_eq!((follower.control().cursor_x, follower.control().cursor_y), (0, 0));
    assert!(!follower.control().has_control);
    match &actions[1] {
        FollowerAction::Send(Message::LeaveScreen { edge, position }) => {
            assert_eq!(*edge, ScreenEdge::Left);
            assert_eq!(*position, EdgePosition { numer: 0, denom: 1080 });
        }
        other => panic!("unexpected {:?}", other),
    }
}
