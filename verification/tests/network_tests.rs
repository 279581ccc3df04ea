use corenet::network::connection::{
    client_handshake, client_hello, heartbeat_round_trip, server_handshake, ServerHandshake,
};
use corenet::network::pump::session_ended;
use corenet::network::{
    client_pump, server_pump, Client, ClientError, ClientEvent, ClientState, Connection,
    ConnectionError, ConnectionState, ConnectionStats, NetworkConfig, PeerAddr, PumpAction,
    PumpEvent, Server, ServerError, ServerEvent,
};
use corenet::protocol::codec::HEADER_SIZE;
use corenet::protocol::{CodecError, Message, ScreenInfo, PROTOCOL_VERSION};

fn screen(id: &str, width: u32, height: u32) -> ScreenInfo {
    ScreenInfo::new(id.to_string(), id.to_string(), width, height)
}

fn addr(last: u8, port: u16) -> PeerAddr {
    PeerAddr { v6: false, ip: 0xC0A8_0100 + last as u128, port }
}

#[test]
fn test_server_creation() {
    let config = NetworkConfig::default();
    let screen_info =
        ScreenInfo::new("test-host".to_string(), "Test Host".to_string(), 1920, 1080);

    let server = Server::new(config, screen_info);
    assert!(!server.is_running());
}

#[test]
fn test_client_creation() {
    let config = NetworkConfig::default();
    let screen_info =
        ScreenInfo::new("test-client".to_string(), "Test Client".to_string(), 1920, 1080);

    let client = Client::new(config, screen_info);
    assert!(!client.is_connected());
}

#[test]
fn test_network_config() {
    let config = NetworkConfig::default();
    assert_eq!(config.port, 24800);
    assert!(config.use_tls);
    assert_eq!(config.cert_path, None);
    assert_eq!(config.key_path, None);
    assert_eq!(config.connect_timeout_ms, 5000);
    assert_eq!(config.heartbeat_interval_ms, 1000);
    assert_eq!(config.max_message_size, 10 * 1024 * 1024);
    let config = NetworkConfig::new(9000);
    assert_eq!(config.port, 9000);
    assert_eq!(config.connect_timeout_ms, 5000);
    let plain = config.clone().without_tls();
    assert!(!plain.use_tls);
    assert_eq!(plain.port, 9000);
    let tls = plain.with_tls("cert.pem".to_string(), "key.pem".to_string());
    assert!(tls.use_tls);
    assert_eq!(tls.cert_path, Some("cert.pem".to_string()));
    assert_eq!(tls.key_path, Some("key.pem".to_string()));
    assert_eq!(tls.port, 9000);
}

#[test]
fn test_handshake_accept() {
    let server_screen = screen("A", 1920, 1080);
    let client_screen = screen("B", 2560, 1600);
    let hello = client_hello(1, &client_screen);
    match &hello {
        Message::Hello { protocol_version, screen_info } => {
            assert_eq!(*protocol_version, 1);
            assert_eq!(screen_info.host_id, "B");
        }
        other => panic!("expected Hello, got {:?}", other),
    }
    let reply = match server_handshake(Some(hello), 1, &server_screen) {
        ServerHandshake::Accept { reply, remote_screen } => {
            assert_eq!(remote_screen.host_id, "B");
            assert_eq!((remote_screen.width, remote_screen.height), (2560, 1600));
            reply
        }
        other => panic!("expected accept, got {:?}", other),
    };
    match &reply {
        Message::HelloAck { protocol_version, screen_info, accepted, reason } => {
            assert_eq!(*protocol_version, 1);
            assert_eq!(screen_info.host_id, "A");
            assert!(*accepted);
            assert!(reason.is_none());
        }
        other => panic!("expected HelloAck, got {:?}", other),
    }
    let server_seen = client_handshake(Some(reply), 1).unwrap();
    assert_eq!(server_seen.host_id, "A");
    assert_eq!((server_seen.width, server_seen.height), (1920, 1080));
}

#[test]
fn test_handshake_version_mismatch() {
    let server_screen = screen("A", 1920, 1080);
    let client_screen = screen("B", 2560, 1600);
    // The client dials with version 2, the server speaks version 1.
    let hello = client_hello(2, &client_screen);
    let reply = match server_handshake(Some(hello), 1, &server_screen) {
        ServerHandshake::Refuse { reply, error } => {
            assert!(matches!(error, ConnectionError::VersionMismatch { local: 1, remote: 2 }));
            assert_eq!(error.message(), "Protocol version mismatch: local=1, remote=2");
            reply.unwrap()
        }
        other => panic!("expected refusal, got {:?}", other),
    };
    match &reply {
        Message::HelloAck { protocol_version, accepted, reason, .. } => {
            assert_eq!(*protocol_version, 1);
            assert!(!*accepted);
            assert_eq!(
                reason.as_deref(),
                Some("Protocol version mismatch: expected 1, got 2")
            );
        }
        other => panic!("expected HelloAck, got {:?}", other),
    }
    match client_handshake(Some(reply), 2) {
        Err(ConnectionError::VersionMismatch { local, remote }) => {
            assert_eq!(local, 2);
            assert_eq!(remote, 1);
        }
        other => panic!("expected VersionMismatch, got {:?}", other),
    }
}

#[test]
fn test_handshake_failures() {
    let local = screen("A", 1920, 1080);
    match server_handshake(None, 1, &local) {
        ServerHandshake::Refuse { reply: None, error: ConnectionError::HandshakeFailed(text) } => {
            assert_eq!(text, "Connection closed during handshake")
        }
        other => panic!("unexpected {:?}", other),
    }
    match server_handshake(Some(Message::Heartbeat { timestamp: 1 }), 1, &local) {
        ServerHandshake::Refuse { reply: None, error: ConnectionError::HandshakeFailed(text) } => {
            assert_eq!(text, "Expected Hello message")
        }
        other => panic!("unexpected {:?}", other),
    }
    match client_handshake(None, 1) {
        Err(ConnectionError::HandshakeFailed(text)) => {
            assert_eq!(text, "Connection closed during handshake")
        }
        other => panic!("unexpected {:?}", other),
    }
    match client_handshake(Some(Message::ClipboardRequest), 1) {
        Err(ConnectionError::HandshakeFailed(text)) => assert_eq!(text, "Expected HelloAck message"),
        other => panic!("unexpected {:?}", other),
    }
    let refused = |reason: Option<String>| Message::HelloAck {
        protocol_version: 1,
        screen_info: screen("A", 1, 1),
        accepted: false,
        reason,
    };
    match client_handshake(Some(refused(Some("full".to_string()))), 1) {
        Err(ConnectionError::HandshakeFailed(text)) => assert_eq!(text, "full"),
        other => panic!("unexpected {:?}", other),
    }
    match client_handshake(Some(refused(None)), 1) {
        Err(ConnectionError::HandshakeFailed(text)) => assert_eq!(text, "Connection rejected"),
        other => panic!("unexpected {:?}", other),
    }
}

#[test]
fn test_heartbeat_round_trip() {
    assert!(matches!(
        heartbeat_round_trip(77, Some(Message::HeartbeatAck { timestamp: 77 }), 1234),
        Ok(1234)
    ));
    assert!(matches!(
        heartbeat_round_trip(77, Some(Message::HeartbeatAck { timestamp: 78 }), 1234),
        Err(ConnectionError::Protocol(CodecError::InvalidMagic))
    ));
    assert!(matches!(
        heartbeat_round_trip(77, Some(Message::Heartbeat { timestamp: 77 }), 1234),
        Err(ConnectionError::Protocol(CodecError::InvalidMagic))
    ));
    assert!(matches!(heartbeat_round_trip(77, None, 1234), Err(ConnectionError::Closed)));
}

#[test]
fn test_connection_lifecycle_and_stats() {
    let mut connection = Connection::new();
    assert_eq!(connection.state(), ConnectionState::Connecting);
    assert!(!connection.is_active());
    assert!(connection.remote_screen_info().is_none());
    assert_eq!(*connection.stats(), ConnectionStats::default());

    let hello = client_hello(PROTOCOL_VERSION, &screen("B", 800, 600));
    connection.send(&hello, &[1, 2, 3, 4, 5]).unwrap();
    assert_eq!(connection.staged().len(), HEADER_SIZE + 5);
    assert_eq!(connection.staged()[4], 0x01);
    assert_eq!(&connection.staged()[9..13], &[0, 0, 0, 0]);
    // Nothing counts as sent before the caller says so.
    assert_eq!(connection.stats().messages_sent, 0);
    connection.sent();
    assert_eq!(connection.stats().messages_sent, 1);
    assert_eq!(connection.stats().bytes_sent, (HEADER_SIZE + 5) as u64);

    // The next frame takes the place of the staged one, under the next number.
    connection.send(&Message::ClipboardRequest, &[]).unwrap();
    assert_eq!(connection.staged().len(), HEADER_SIZE);
    assert_eq!(&connection.staged()[9..13], &[0, 0, 0, 1]);
    connection.sent();
    assert_eq!(connection.stats().messages_sent, 2);
    assert_eq!(connection.stats().bytes_sent, (2 * HEADER_SIZE + 5) as u64);

    connection.establish(screen("A", 1920, 1080));
    assert_eq!(connection.state(), ConnectionState::Connected);
    assert!(connection.is_active());
    assert_eq!(connection.remote_screen_info().unwrap().host_id, "A");

    connection.record_rtt(4321);
    assert_eq!(connection.stats().rtt_us, 4321);

    match connection.close("Session ended") {
        Message::Disconnect { reason } => assert_eq!(reason, "Session ended"),
        other => panic!("unexpected {:?}", other),
    }
    assert_eq!(connection.state(), ConnectionState::Closing);
    assert!(!connection.is_active());
    connection.finish_close();
    assert_eq!(connection.state(), ConnectionState::Closed);
}

#[test]
fn test_connection_receive() {
    let mut sender = Connection::new();
    sender.send(&Message::Heartbeat { timestamp: 5 }, &[9, 8, 7]).unwrap();
    let wire: Vec<u8> = sender.staged().to_vec();

    let mut receiver = Connection::new();
    assert!(matches!(receiver.recv(), Ok(None)));
    // A read of nothing with nothing buffered is a clean close.
    assert!(matches!(receiver.absorb(&[]), Ok(false)));
    assert!(matches!(receiver.absorb(&wire[..10]), Ok(true)));
    assert_eq!(receiver.stats().bytes_received, 10);
    assert!(matches!(receiver.recv(), Ok(None)));
    // The stream ends inside a frame.
    assert!(matches!(receiver.absorb(&[]), Err(ConnectionError::Closed)));
    assert!(matches!(receiver.absorb(&wire[10..]), Ok(true)));
    assert_eq!(receiver.stats().bytes_received, wire.len() as u64);
    assert_eq!(receiver.stats().messages_received, 0);
    let frame = receiver.recv().unwrap().unwrap();
    assert_eq!(frame.sequence, 0);
    assert_eq!(frame.message_type, 0xF0);
    assert_eq!(frame.payload, vec![9, 8, 7]);
    assert_eq!(receiver.stats().messages_received, 1);
    assert!(matches!(receiver.recv(), Ok(None)));
    assert!(matches!(receiver.absorb(&[]), Ok(false)));

    // A bad header is a protocol error.
    assert!(matches!(receiver.absorb(&[0u8; 13]), Ok(true)));
    assert!(matches!(
        receiver.recv(),
        Err(ConnectionError::Protocol(CodecError::InvalidMagic))
    ));
}

#[test]
fn test_connection_send_too_large() {
    let mut connection = Connection::new();
    connection.send(&Message::ClipboardRequest, &[1]).unwrap();
    let payload = vec![0u8; 10 * 1024 * 1024 + 1];
    match connection.send(&Message::ClipboardRequest, &payload) {
        Err(ConnectionError::Protocol(CodecError::MessageTooLarge(size, limit))) => {
            assert_eq!(size, 10 * 1024 * 1024 + 1);
            assert_eq!(limit, 10 * 1024 * 1024);
        }
        other => panic!("unexpected {:?}", other),
    }
    assert!(connection.staged().is_empty());
}

#[test]
fn test_connection_state_transitions() {
    let all = [
        ConnectionState::Disconnected,
        ConnectionState::Connecting,
        ConnectionState::Connected,
        ConnectionState::Closing,
        ConnectionState::Closed,
    ];
    let legal = [
        (ConnectionState::Disconnected, ConnectionState::Connecting),
        (ConnectionState::Connecting, ConnectionState::Connected),
        (ConnectionState::Connecting, ConnectionState::Closed),
        (ConnectionState::Connected, ConnectionState::Closing),
        (ConnectionState::Closing, ConnectionState::Closed),
    ];
    for from in all {
        for to in all {
            assert_eq!(from.may_become(to), legal.contains(&(from, to)));
        }
    }
}

#[test]
fn test_connection_error_messages() {
    assert_eq!(ConnectionError::Io("reset".to_string()).message(), "IO error: reset");
    assert_eq!(
        ConnectionError::Protocol(CodecError::InvalidMagic).message(),
        "Protocol error: Invalid magic bytes"
    );
    assert_eq!(ConnectionError::Closed.message(), "Connection closed");
    assert_eq!(
        ConnectionError::HandshakeFailed("nope".to_string()).message(),
        "Handshake failed: nope"
    );
    assert_eq!(
        ConnectionError::VersionMismatch { local: 1, remote: 4294967295 }.message(),
        "Protocol version mismatch: local=1, remote=4294967295"
    );
    assert_eq!(ConnectionError::Timeout.message(), "Connection timeout");
    assert_eq!(ConnectionError::SendChannelClosed.message(), "Send channel closed");
    assert_eq!(ServerError::AlreadyRunning.message(), "Server already running");
    assert_eq!(ServerError::NotRunning.message(), "Server not running");
    assert_eq!(ServerError::BindFailed("x".to_string()).message(), "Bind failed: x");
    assert_eq!(ServerError::Io("x".to_string()).message(), "IO error: x");
    assert_eq!(
        ServerError::Connection(ConnectionError::Closed).message(),
        "Connection error: Connection closed"
    );
    assert_eq!(ClientError::AlreadyConnected.message(), "Already connected");
    assert_eq!(ClientError::NotConnected.message(), "Not connected");
    assert_eq!(ClientError::Timeout.message(), "Connection timeout");
    assert_eq!(ClientError::Io("x".to_string()).message(), "IO error: x");
    assert_eq!(
        ClientError::Connection(ConnectionError::Timeout).message(),
        "Connection error: Connection timeout"
    );
}

fn stop_reason(action: PumpAction) -> String {
    match action {
        PumpAction::Stop(reason) => reason,
        other => panic!("expected stop, got {:?}", other),
    }
}

#[test]
fn test_server_pump() {
    assert_eq!(
        stop_reason(server_pump(PumpEvent::Received(Message::Disconnect {
            reason: "going".to_string()
        }))),
        "going"
    );
    assert!(matches!(
        server_pump(PumpEvent::Received(Message::Heartbeat { timestamp: 42 })),
        PumpAction::Reply(Message::HeartbeatAck { timestamp: 42 })
    ));
    assert!(matches!(
        server_pump(PumpEvent::Received(Message::HeartbeatAck { timestamp: 42 })),
        PumpAction::Deliver(Message::HeartbeatAck { timestamp: 42 })
    ));
    assert!(matches!(
        server_pump(PumpEvent::Received(Message::MouseScroll { dx: 1, dy: 2 })),
        PumpAction::Deliver(Message::MouseScroll { dx: 1, dy: 2 })
    ));
    assert_eq!(stop_reason(server_pump(PumpEvent::StreamClosed)), "Connection closed");
    assert_eq!(
        stop_reason(server_pump(PumpEvent::ReceiveFailed(ConnectionError::Protocol(
            CodecError::InvalidMagic
        )))),
        "Error: Protocol error: Invalid magic bytes"
    );
    assert!(matches!(
        server_pump(PumpEvent::Outbound(Message::GrabKeyboard)),
        PumpAction::Transmit(Message::GrabKeyboard)
    ));
    assert_eq!(
        stop_reason(server_pump(PumpEvent::SendFailed(ConnectionError::Io(
            "broken pipe".to_string()
        )))),
        "Send error: IO error: broken pipe"
    );
    assert_eq!(stop_reason(server_pump(PumpEvent::Shutdown)), "Server shutting down");
    assert!(matches!(server_pump(PumpEvent::HeartbeatDue(5)), PumpAction::Continue));
    assert!(matches!(
        server_pump(PumpEvent::HeartbeatFailed(ConnectionError::Closed)),
        PumpAction::Continue
    ));
    match session_ended() {
        Message::Disconnect { reason } => assert_eq!(reason, "Session ended"),
        other => panic!("unexpected {:?}", other),
    }
}

#[test]
fn test_client_pump() {
    assert_eq!(
        stop_reason(client_pump(PumpEvent::Received(Message::Disconnect {
            reason: "Server shutting down".to_string()
        }))),
        "Server shutting down"
    );
    assert!(matches!(
        client_pump(PumpEvent::Received(Message::Heartbeat { timestamp: 42 })),
        PumpAction::Reply(Message::HeartbeatAck { timestamp: 42 })
    ));
    assert!(matches!(
        client_pump(PumpEvent::Received(Message::HeartbeatAck { timestamp: 42 })),
        PumpAction::UpdateRtt
    ));
    assert!(matches!(
        client_pump(PumpEvent::Received(Message::MouseMoveRelative { dx: -5, dy: 0 })),
        PumpAction::Deliver(Message::MouseMoveRelative { dx: -5, dy: 0 })
    ));
    assert_eq!(stop_reason(client_pump(PumpEvent::StreamClosed)), "Connection closed");
    assert_eq!(
        stop_reason(client_pump(PumpEvent::ReceiveFailed(ConnectionError::Closed))),
        "Error: Connection closed"
    );
    assert!(matches!(
        client_pump(PumpEvent::Outbound(Message::ReleaseKeyboard)),
        PumpAction::Transmit(Message::ReleaseKeyboard)
    ));
    assert_eq!(
        stop_reason(client_pump(PumpEvent::SendFailed(ConnectionError::Timeout))),
        "Send error: Connection timeout"
    );
    assert!(matches!(
        client_pump(PumpEvent::HeartbeatDue(1_700_000_000_000_000)),
        PumpAction::Beat(Message::Heartbeat { timestamp: 1_700_000_000_000_000 })
    ));
    assert_eq!(
        stop_reason(client_pump(PumpEvent::HeartbeatFailed(ConnectionError::Io(
            "reset".to_string()
        )))),
        "Heartbeat error: IO error: reset"
    );
    assert_eq!(stop_reason(client_pump(PumpEvent::Shutdown)), "Client shutdown requested");
}

#[test]
fn test_server_start_and_stop() {
    let mut server = Server::new(NetworkConfig::new(24800), screen("A", 1920, 1080));
    assert_eq!(server.screen_info().host_id, "A");
    assert!(matches!(server.stop(), Err(ServerError::NotRunning)));
    assert_eq!(server.start().unwrap(), "0.0.0.0:24800");
    match server.bind_failed("address in use") {
        ServerError::BindFailed(text) => {
            assert_eq!(text, "Failed to bind to 0.0.0.0:24800: address in use")
        }
        other => panic!("unexpected {:?}", other),
    }
    let bound = addr(0, 24800);
    assert!(matches!(server.started(bound), ServerEvent::Started { bind_addr } if bind_addr == bound));
    assert!(server.is_running());
    assert!(matches!(server.start(), Err(ServerError::AlreadyRunning)));

    server.register(addr(1, 5000), screen("B", 800, 600));
    server.register(addr(2, 5000), screen("C", 800, 600));
    let farewells = server.stop().unwrap();
    assert_eq!(farewells.len(), 2);
    assert_eq!(farewells[0].0, addr(1, 5000));
    assert_eq!(farewells[1].0, addr(2, 5000));
    for (_, farewell) in &farewells {
        match farewell {
            Message::Disconnect { reason } => assert_eq!(reason, "Server shutting down"),
            other => panic!("unexpected {:?}", other),
        }
    }
    assert!(matches!(server.stopped(), ServerEvent::Stopped));
    assert!(!server.is_running());
}

#[test]
fn test_server_registry() {
    let mut server = Server::new(NetworkConfig::default(), screen("A", 1920, 1080));
    let one = addr(1, 5000);
    let two = addr(2, 5000);
    assert!(matches!(
        server.send_to(&one),
        Err(ServerError::Connection(ConnectionError::Closed))
    ));
    assert!(server.broadcast().is_empty());
    match server.register(one, screen("B", 800, 600)) {
        ServerEvent::ClientConnected { addr, screen_info } => {
            assert_eq!(addr, one);
            assert_eq!(screen_info.host_id, "B");
        }
        other => panic!("unexpected {:?}", other),
    }
    server.register(two, screen("C", 1024, 768));
    assert!(server.send_to(&one).is_ok());
    assert!(server.send_to(&two).is_ok());
    assert!(server.send_to(&addr(1, 5001)).is_err());
    assert_eq!(server.broadcast(), vec![one, two]);
    // The same address again takes the place of the first registration.
    server.register(one, screen("D", 640, 480));
    assert_eq!(server.clients().len(), 2);
    assert_eq!(server.clients()[0].screen_info.host_id, "D");
    match server.unregister(one, "Connection closed".to_string()) {
        ServerEvent::ClientDisconnected { addr, reason } => {
            assert_eq!(addr, one);
            assert_eq!(reason, "Connection closed");
        }
        other => panic!("unexpected {:?}", other),
    }
    assert!(server.send_to(&one).is_err());
    assert!(server.send_to(&two).is_ok());
    assert_eq!(server.broadcast(), vec![two]);
    server.unregister(one, "again".to_string());
    assert_eq!(server.clients().len(), 1);
}

#[test]
fn test_client_lifecycle() {
    let mut client = Client::new(NetworkConfig::default(), screen("B", 2560, 1600));
    assert_eq!(client.state(), ClientState::Disconnected);
    assert_eq!(client.screen_info().host_id, "B");
    assert_eq!(client.connect_timeout_ms(), 5000);
    assert_eq!(client.heartbeat_interval_ms(), 1000);
    assert!(client.server_screen().is_none());
    assert!(matches!(client.disconnect(), Err(ClientError::NotConnected)));
    assert!(matches!(client.send(), Err(ClientError::NotConnected)));

    client.connect().unwrap();
    assert_eq!(client.state(), ClientState::Connecting);
    assert!(matches!(client.connect(), Err(ClientError::AlreadyConnected)));
    assert!(matches!(client.send(), Err(ClientError::NotConnected)));
    assert!(matches!(client.connect_failed(ClientError::Timeout), ClientError::Timeout));
    assert_eq!(client.state(), ClientState::Disconnected);

    client.connect().unwrap();
    let server = addr(9, 24800);
    match client.connected(server, screen("A", 1920, 1080)) {
        ClientEvent::Connected { server_addr, server_screen } => {
            assert_eq!(server_addr, server);
            assert_eq!(server_screen.host_id, "A");
        }
        other => panic!("unexpected {:?}", other),
    }
    assert!(client.is_connected());
    assert_eq!(client.server_screen().unwrap().host_id, "A");
    assert!(client.send().is_ok());
    assert!(matches!(client.connect(), Err(ClientError::AlreadyConnected)));
    match client.disconnect().unwrap() {
        Message::Disconnect { reason } => assert_eq!(reason, "Client disconnecting"),
        other => panic!("unexpected {:?}", other),
    }
    match client.disconnected("Client shutdown requested".to_string()) {
        ClientEvent::Disconnected { reason } => assert_eq!(reason, "Client shutdown requested"),
        other => panic!("unexpected {:?}", other),
    }
    assert_eq!(client.state(), ClientState::Disconnected);
    assert!(!client.is_connected());
}

#[test]
fn test_connection_handshake_and_ping() {
    let local = screen("A", 1920, 1080);
    let server = Connection::new();
    let hello = client_hello(PROTOCOL_VERSION, &screen("B", 800, 600));
    let reply = match server.handshake_server(Some(hello), &local) {
        ServerHandshake::Accept { reply, remote_screen } => {
            assert_eq!(remote_screen.host_id, "B");
            reply
        }
        other => panic!("unexpected {:?}", other),
    };
    assert!(matches!(
        server.handshake_server(Some(client_hello(PROTOCOL_VERSION + 1, &local)), &local),
        ServerHandshake::Refuse { error: ConnectionError::VersionMismatch { local: 1, remote: 2 }, .. }
    ));

    let mut client = Connection::new();
    assert!(matches!(
        client.handshake_client(Some(Message::ClipboardRequest)),
        Err(ConnectionError::HandshakeFailed(_))
    ));
    assert_eq!(client.state(), ConnectionState::Connecting);
    client.handshake_client(Some(reply)).unwrap();
    assert_eq!(client.state(), ConnectionState::Connected);
    assert_eq!(client.remote_screen_info().unwrap().host_id, "A");

    assert!(matches!(
        client.ping(5, Some(Message::HeartbeatAck { timestamp: 6 }), 900),
        Err(ConnectionError::Protocol(CodecError::InvalidMagic))
    ));
    assert_eq!(client.stats().rtt_us, 0);
    assert!(matches!(client.ping(5, None, 900), Err(ConnectionError::Closed)));
    assert!(matches!(client.ping(5, Some(Message::HeartbeatAck { timestamp: 5 }), 900), Ok(900)));
    assert_eq!(client.stats().rtt_us, 900);
}

#[test]
fn test_server_handshake_refused() {
    let server = Server::new(NetworkConfig::default(), screen("A", 1920, 1080));
    let who = addr(7, 5000);
    let error = ConnectionError::VersionMismatch { local: 1, remote: 2 };
    match server.handshake_refused(who, &error) {
        ServerEvent::ClientDisconnected { addr, reason } => {
            assert_eq!(addr, who);
            assert_eq!(reason, "Protocol version mismatch: local=1, remote=2");
        }
        other => panic!("unexpected {:?}", other),
    }
    assert!(server.clients().is_empty());
    // The refusal itself: one refusing answer, and the connection is not
    // established.
    let connection = Connection::new();
    let local = screen("A", 1920, 1080);
    match connection.handshake_server(Some(client_hello(2, &screen("B", 800, 600))), &local) {
        ServerHandshake::Refuse { reply: Some(reply), error } => {
            assert!(matches!(error, ConnectionError::VersionMismatch { local: 1, remote: 2 }));
            match reply {
                Message::HelloAck { protocol_version, screen_info, accepted, reason } => {
                    assert_eq!(protocol_version, 1);
                    assert_eq!(screen_info.host_id, "A");
                    assert!(!accepted);
                    assert_eq!(
                        reason.as_deref(),
                        Some("Protocol version mismatch: expected 1, got 2")
                    );
                }
                other => panic!("unexpected {:?}", other),
            }
        }
        other => panic!("unexpected {:?}", other),
    }
    assert_eq!(connection.state(), ConnectionState::Connecting);
    assert!(connection.remote_screen_info().is_none());
    assert!(matches!(
        connection.handshake_server(Some(Message::ClipboardRequest), &local),
        ServerHandshake::Refuse { reply: None, error: ConnectionError::HandshakeFailed(_) }
    ));
}
