//! The client: a secondary host's end of its connection to the server.
//!
//! The caller dials, runs the handshake and the pump (see
//! [`crate::network::pump`]); the client's state says what is allowed
//! when, and what to tell its owner.

use vstd::prelude::*;

use crate::network::connection::ConnectionError;
use crate::network::{NetworkConfig, PeerAddr};
use crate::protocol::message::{Message, ScreenInfo};
use crate::text::joined;

verus! {

/// Client errors.
#[derive(Debug)]
pub enum ClientError {
    /// The stream failed; the text is the cause.
    Io(String),
    Connection(ConnectionError),
    AlreadyConnected,
    NotConnected,
    Timeout,
}

impl ClientError {
    /// The error in words.
    pub open spec fn spec_message(&self) -> Seq<char> {
        match *self {
            ClientError::Io(cause) => "IO error: "@ + cause@,
            ClientError::Connection(error) => "Connection error: "@ + error.spec_message(),
            ClientError::AlreadyConnected => "Already connected"@,
            ClientError::NotConnected => "Not connected"@,
            ClientError::Timeout => "Connection timeout"@,
        }
    }

    /// The error in words.
    pub fn message(&self) -> (text: String)
        ensures
            text@ == self.spec_message(),
    {
        match self {
            ClientError::Io(cause) => joined("IO error: ", cause.as_str()),
            ClientError::Connection(error) => joined("Connection error: ", error.message().as_str()),
            ClientError::AlreadyConnected => String::from_str("Already connected"),
            ClientError::NotConnected => String::from_str("Not connected"),
            ClientError::Timeout => String::from_str("Connection timeout"),
        }
    }
}

/// Events emitted by the client.
#[derive(Debug)]
pub enum ClientEvent {
    /// Successfully connected to server.
    Connected { server_addr: PeerAddr, server_screen: ScreenInfo },
    /// Disconnected from server.
    Disconnected { reason: String },
    /// Received a message from the server.
    MessageReceived { message: Message },
    /// Connection error.
    Error { message: String },
}

/// Client state.
#[derive(Debug, Clone, Copy, PartialEq, Eq, Structural)]
pub enum ClientState {
    Disconnected,
    Connecting,
    Connected,
}

/// The client as plain values.
pub struct ClientView {
    pub config: NetworkConfig,
    pub screen_info: ScreenInfo,
    pub state: ClientState,
    /// The server's screen, once connected.
    pub server_screen: Option<ScreenInfo>,
}

/// The client's state.
pub struct Client {
    /// Client configuration.
    config: NetworkConfig,
    /// Local screen information.
    screen_info: ScreenInfo,
    /// Current state.
    state: ClientState,
    /// Server screen info (after connection).
    server_screen: Option<ScreenInfo>,
}

impl View for Client {
    type V = ClientView;

    closed spec fn view(&self) -> ClientView {
        ClientView {
            config: self.config,
            screen_info: self.screen_info,
            state: self.state,
            server_screen: self.server_screen,
        }
    }
}

impl Client {
    /// Create a new client: disconnected.
    pub fn new(config: NetworkConfig, screen_info: ScreenInfo) -> (client: Client)
        ensures
            client@ == (ClientView {
                config,
                screen_info,
                state: ClientState::Disconnected,
                server_screen: None,
            }),
    {
        Client { config, screen_info, state: ClientState::Disconnected, server_screen: None }
    }

    /// Get the current state.
    pub fn state(&self) -> (state: ClientState)
        ensures
            state == self@.state,
    {
        self.state
    }

    /// Check if connected.
    pub fn is_connected(&self) -> (connected: bool)
        ensures
            connected == (self@.state == ClientState::Connected),
    {
        self.state == ClientState::Connected
    }

    /// Get the server's screen info (if connected).
    pub fn server_screen(&self) -> (screen: Option<ScreenInfo>)
        ensures
            screen == self@.server_screen,
    {
        match &self.server_screen {
            Some(screen) => Some(screen.clone()),
            None => None,
        }
    }

    /// The local screen, which the handshake presents to the server.
    pub fn screen_info(&self) -> (info: &ScreenInfo)
        ensures
            *info == self@.screen_info,
    {
        &self.screen_info
    }

    /// The time to wait for the stream, in milliseconds.
    pub fn connect_timeout_ms(&self) -> (ms: u64)
        ensures
            ms == self@.config.connect_timeout_ms,
    {
        self.config.connect_timeout_ms
    }

    /// The time between heartbeats, in milliseconds.
    pub fn heartbeat_interval_ms(&self) -> (ms: u64)
        ensures
            ms == self@.config.heartbeat_interval_ms,
    {
        self.config.heartbeat_interval_ms
    }

    /// Begin to connect. Only a disconnected client can; it is connecting
    /// afterwards.
    pub fn connect(&mut self) -> (result: Result<(), ClientError>)
        ensures
            match result {
                Ok(()) => old(self)@.state == ClientState::Disconnected && final(self)@
                    == (ClientView { state: ClientState::Connecting, ..old(self)@ }),
                Err(error) => old(self)@.state != ClientState::Disconnected && error
                    == ClientError::AlreadyConnected && final(self)@ == old(self)@,
            },
    {
        if self.state != ClientState::Disconnected {
            return Err(ClientError::AlreadyConnected);
        }
        self.state = ClientState::Connecting;
        Ok(())
    }

    /// Record that the attempt to connect has failed, with the error that
    /// the caller of `connect` gets: the client is disconnected again.
    pub fn connect_failed(&mut self, error: ClientError) -> (returned: ClientError)
        ensures
            final(self)@ == (ClientView { state: ClientState::Disconnected, ..old(self)@ }),
            returned == error,
    {
        self.state = ClientState::Disconnected;
        error
    }

    /// Record that the handshake has succeeded: the client is connected
    /// to the server at `server_addr`, whose screen is `server_screen`.
    pub fn connected(&mut self, server_addr: PeerAddr, server_screen: ScreenInfo) -> (event:
        ClientEvent)
        ensures
            final(self)@ == (ClientView {
                state: ClientState::Connected,
                server_screen: Some(server_screen),
                ..old(self)@
            }),
            event == (ClientEvent::Connected { server_addr, server_screen }),
    {
        self.server_screen = Some(server_screen.clone());
        self.state = ClientState::Connected;
        ClientEvent::Connected { server_addr, server_screen }
    }

    /// Disconnect from the server: what comes back is the farewell to
    /// send before the pump is told to stop. A disconnected client cannot.
    pub fn disconnect(&self) -> (result: Result<Message, ClientError>)
        ensures
            match result {
                Ok(farewell) => self@.state != ClientState::Disconnected && (
                farewell matches Message::Disconnect { reason } && reason@
                    == "Client disconnecting"@),
                Err(error) => self@.state == ClientState::Disconnected && error
                    == ClientError::NotConnected,
            },
    {
        if self.state == ClientState::Disconnected {
            return Err(ClientError::NotConnected);
        }
        Ok(Message::Disconnect { reason: String::from_str("Client disconnecting") })
    }

    /// Decide whether a message can be sent to the server: only a
    /// connected client has a connection to send on.
    pub fn send(&self) -> (result: Result<(), ClientError>)
        ensures
            match result {
                Ok(()) => self@.state == ClientState::Connected,
                Err(error) => self@.state != ClientState::Connected && error
                    == ClientError::NotConnected,
            },
    {
        if self.state == ClientState::Connected {
            Ok(())
        } else {
            Err(ClientError::NotConnected)
        }
    }

    /// Record that the pump has ended for `reason`: the client is
    /// disconnected.
    pub fn disconnected(&mut self, reason: String) -> (event: ClientEvent)
        ensures
            final(self)@ == (ClientView { state: ClientState::Disconnected, ..old(self)@ }),
            event == (ClientEvent::Disconnected { reason }),
    {
        self.state = ClientState::Disconnected;
        ClientEvent::Disconnected { reason }
    }
}

} // verus!
