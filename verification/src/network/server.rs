//! The server: the primary host's end of its connections.
//!
//! The server accepts connections from clients and keeps the registry of
//! those that have completed the handshake. The caller owns the listener
//! and runs one pump per client (see [`crate::network::pump`]).

use vstd::prelude::*;

use crate::network::connection::ConnectionError;
use crate::network::{NetworkConfig, PeerAddr};
use crate::protocol::message::{Message, ScreenInfo};
use crate::text::{decimal, joined, spec_decimal};

verus! {

/// Server errors.
#[derive(Debug)]
pub enum ServerError {
    /// The listener failed; the text is the cause.
    Io(String),
    Connection(ConnectionError),
    AlreadyRunning,
    NotRunning,
    BindFailed(String),
}

impl ServerError {
    /// The error in words.
    pub open spec fn spec_message(&self) -> Seq<char> {
        match *self {
            ServerError::Io(cause) => "IO error: "@ + cause@,
            ServerError::Connection(error) => "Connection error: "@ + error.spec_message(),
            ServerError::AlreadyRunning => "Server already running"@,
            ServerError::NotRunning => "Server not running"@,
            ServerError::BindFailed(cause) => "Bind failed: "@ + cause@,
        }
    }

    /// The error in words.
    pub fn message(&self) -> (text: String)
        ensures
            text@ == self.spec_message(),
    {
        match self {
            ServerError::Io(cause) => joined("IO error: ", cause.as_str()),
            ServerError::Connection(error) => joined("Connection error: ", error.message().as_str()),
            ServerError::AlreadyRunning => String::from_str("Server already running"),
            ServerError::NotRunning => String::from_str("Server not running"),
            ServerError::BindFailed(cause) => joined("Bind failed: ", cause.as_str()),
        }
    }
}

/// Events emitted by the server.
#[derive(Debug)]
pub enum ServerEvent {
    /// A new client has connected.
    ClientConnected { addr: PeerAddr, screen_info: ScreenInfo },
    /// A client has disconnected.
    ClientDisconnected { addr: PeerAddr, reason: String },
    /// Received a message from a client.
    MessageReceived { addr: PeerAddr, message: Message },
    /// Server started.
    Started { bind_addr: PeerAddr },
    /// Server stopped.
    Stopped,
    /// Error occurred.
    Error { message: String },
}

/// Information about a connected client.
#[derive(Debug)]
pub struct ClientInfo {
    /// Client address.
    pub addr: PeerAddr,
    /// Client screen information.
    pub screen_info: ScreenInfo,
}

impl Clone for ClientInfo {
    fn clone(&self) -> (info: ClientInfo)
        ensures
            info == *self,
    {
        ClientInfo { addr: self.addr, screen_info: self.screen_info.clone() }
    }
}

/// Whether one of the clients has the address.
pub open spec fn registered(clients: Seq<ClientInfo>, addr: PeerAddr) -> bool {
    exists|i: int| 0 <= i < clients.len() && (#[trigger] clients[i]).addr == addr
}

/// No two of the clients have the same address.
pub open spec fn distinct_addrs(clients: Seq<ClientInfo>) -> bool {
    forall|i: int, j: int|
        0 <= i < j < clients.len() ==> (#[trigger] clients[i]).addr != (#[trigger] clients[j]).addr
}

/// The place of the client with the address.
pub open spec fn place_of(clients: Seq<ClientInfo>, addr: PeerAddr) -> int {
    choose|i: int| 0 <= i < clients.len() && (#[trigger] clients[i]).addr == addr
}

/// Among clients at distinct addresses the place of an address is the
/// one place where a client has it.
pub proof fn lemma_place_of(clients: Seq<ClientInfo>, addr: PeerAddr, place: int)
    requires
        distinct_addrs(clients),
        0 <= place < clients.len(),
        clients[place].addr == addr,
    ensures
        registered(clients, addr),
        place_of(clients, addr) == place,
{
    let chosen = place_of(clients, addr);
    if chosen < place {
        assert(clients[chosen].addr != clients[place].addr);
    }
    if place < chosen {
        assert(clients[place].addr != clients[chosen].addr);
    }
}

/// The address that the listener binds: every interface, at the port.
pub open spec fn spec_bind_address(port: u16) -> Seq<char> {
    "0.0.0.0:"@ + spec_decimal(port as nat)
}

/// The server as plain values.
pub struct ServerView {
    pub config: NetworkConfig,
    pub screen_info: ScreenInfo,
    /// The clients that have completed the handshake, no two at the same
    /// address.
    pub clients: Seq<ClientInfo>,
    pub running: bool,
}

/// The server's state.
pub struct Server {
    /// Server configuration.
    config: NetworkConfig,
    /// Local screen information.
    screen_info: ScreenInfo,
    /// Connected clients.
    clients: Vec<ClientInfo>,
    /// Whether the server is running.
    running: bool,
}

impl View for Server {
    type V = ServerView;

    closed spec fn view(&self) -> ServerView {
        ServerView {
            config: self.config,
            screen_info: self.screen_info,
            clients: self.clients@,
            running: self.running,
        }
    }
}

impl Server {
    /// No two registered clients have the same address.
    pub closed spec fn wf(&self) -> bool {
        distinct_addrs(self.clients@)
    }

    /// Create a new server: not running, with no client.
    pub fn new(config: NetworkConfig, screen_info: ScreenInfo) -> (server: Server)
        ensures
            server.wf(),
            server@ == (ServerView { config, screen_info, clients: Seq::empty(), running: false }),
    {
        Server { config, screen_info, clients: Vec::new(), running: false }
    }

    /// Check if the server is running.
    pub fn is_running(&self) -> (running: bool)
        ensures
            running == self@.running,
    {
        self.running
    }

    /// The local screen, which the handshake presents to clients.
    pub fn screen_info(&self) -> (info: &ScreenInfo)
        ensures
            *info == self@.screen_info,
    {
        &self.screen_info
    }

    /// Get the connected clients.
    pub fn clients(&self) -> (clients: &Vec<ClientInfo>)
        ensures
            clients@ == self@.clients,
    {
        &self.clients
    }

    /// Start the server: what comes back is the address to bind, after
    /// which [`Server::started`] records that the server runs. Starting a
    /// server that is running is an error.
    pub fn start(&self) -> (result: Result<String, ServerError>)
        ensures
            match result {
                Ok(address) => !self@.running && address@ == spec_bind_address(self@.config.port),
                Err(error) => self@.running && error == ServerError::AlreadyRunning,
            },
    {
        if self.running {
            return Err(ServerError::AlreadyRunning);
        }
        Ok(joined("0.0.0.0:", decimal(self.config.port as u64).as_str()))
    }

    /// The error of a server that could not bind its address.
    pub fn bind_failed(&self, cause: &str) -> (error: ServerError)
        ensures
            error matches ServerError::BindFailed(text) && text@ == "Failed to bind to "@
                + spec_bind_address(self@.config.port) + ": "@ + cause@,
    {
        let mut text = String::from_str("Failed to bind to ");
        text.append("0.0.0.0:");
        text.append(decimal(self.config.port as u64).as_str());
        text.append(": ");
        text.append(cause);
        assert(text@ =~= "Failed to bind to "@ + spec_bind_address(self@.config.port) + ": "@
            + cause@);
        ServerError::BindFailed(text)
    }

    /// Record that the listener is bound, at `bind_addr`: the server is
    /// running.
    pub fn started(&mut self, bind_addr: PeerAddr) -> (event: ServerEvent)
        ensures
            final(self)@ == (ServerView { running: true, ..old(self)@ }),
            old(self).wf() ==> final(self).wf(),
            event == (ServerEvent::Started { bind_addr }),
    {
        self.running = true;
        ServerEvent::Started { bind_addr }
    }

    /// Stop the server: what comes back is the farewell for each client.
    /// Stopping a server that is not running is an error.
    pub fn stop(&self) -> (result: Result<Vec<(PeerAddr, Message)>, ServerError>)
        ensures
            match result {
                Ok(farewells) => {
                    &&& self@.running
                    &&& farewells@.len() == self@.clients.len()
                    &&& forall|i: int|
                        0 <= i < farewells@.len() ==> (#[trigger] farewells@[i]).0
                            == self@.clients[i].addr && (farewells@[i].1 matches Message::Disconnect {
                            reason,
                        } && reason@ == "Server shutting down"@)
                },
                Err(error) => !self@.running && error == ServerError::NotRunning,
            },
    {
        if !self.running {
            return Err(ServerError::NotRunning);
        }
        // Disconnect all clients

        let mut farewells: Vec<(PeerAddr, Message)> = Vec::new();
        let mut i: usize = 0;
        while i < self.clients.len()
            invariant
                i <= self.clients@.len(),
                farewells@.len() == i,
                forall|k: int|
                    0 <= k < i ==> (#[trigger] farewells@[k]).0 == self.clients@[k].addr && (farewells@[k].1 matches Message::Disconnect {
                        reason,
                    } && reason@ == "Server shutting down"@),
            decreases self.clients@.len() - i,
        {
            farewells.push(
                (
                    self.clients[i].addr,
                    Message::Disconnect { reason: String::from_str("Server shutting down") },
                ),
            );
            i += 1;
        }
        Ok(farewells)
    }

    /// Record that the accept loop has ended: the server is not running.
    pub fn stopped(&mut self) -> (event: ServerEvent)
        ensures
            final(self)@ == (ServerView { running: false, ..old(self)@ }),
            old(self).wf() ==> final(self).wf(),
            event == ServerEvent::Stopped,
    {
        self.running = false;
        ServerEvent::Stopped
    }

    fn position_of(&self, addr: PeerAddr) -> (place: Option<usize>)
        ensures
            match place {
                Some(i) => i < self.clients@.len() && self.clients@[i as int].addr == addr,
                None => !registered(self.clients@, addr),
            },
    {
        let mut i: usize = 0;
        while i < self.clients.len()
            invariant
                i <= self.clients@.len(),
                forall|k: int| 0 <= k < i ==> (#[trigger] self.clients@[k]).addr != addr,
            decreases self.clients@.len() - i,
        {
            if self.clients[i].addr == addr {
                return Some(i);
            }
            i += 1;
        }
        None
    }

    /// Register a client that has completed the handshake, in place of
    /// any that was registered at its address.
    pub fn register(&mut self, addr: PeerAddr, screen_info: ScreenInfo) -> (event: ServerEvent)
        requires
            old(self).wf(),
        ensures
            final(self).wf(),
            event == (ServerEvent::ClientConnected { addr, screen_info }),
            final(self)@ == (ServerView {
                clients: if registered(old(self)@.clients, addr) {
                    old(self)@.clients.update(
                        place_of(old(self)@.clients, addr),
                        ClientInfo { addr, screen_info },
                    )
                } else {
                    old(self)@.clients.push(ClientInfo { addr, screen_info })
                },
                ..old(self)@
            }),
            registered(final(self)@.clients, addr),
    {
        let info = ClientInfo { addr, screen_info: screen_info.clone() };
        let ghost before = self.clients@;
        match self.position_of(addr) {
            Some(i) => {
                self.clients[i] = info;
                proof {
                    let after = self.clients@;
                    lemma_place_of(before, addr, i as int);
                    assert forall|a: int, b: int| 0 <= a < b < after.len() implies (
                    #[trigger] after[a]).addr != (#[trigger] after[b]).addr by {
                        assert(before[a].addr != before[b].addr);
                    }
                    assert(after[i as int].addr == addr);
                }
            },
            None => {
                self.clients.push(info);
                proof {
                    let after = self.clients@;
                    assert forall|a: int, b: int| 0 <= a < b < after.len() implies (
                    #[trigger] after[a]).addr != (#[trigger] after[b]).addr by {
                        if b < before.len() {
                            assert(before[a].addr != before[b].addr);
                        } else {
                            assert(before[a].addr != addr);
                        }
                    }
                    assert(after[before.len() as int].addr == addr);
                }
            },
        }
        ServerEvent::ClientConnected { addr, screen_info }
    }

    /// Remove the client at an address, whose pump has ended for `reason`.
    pub fn unregister(&mut self, addr: PeerAddr, reason: String) -> (event: ServerEvent)
        requires
            old(self).wf(),
        ensures
            final(self).wf(),
            event == (ServerEvent::ClientDisconnected { addr, reason }),
            final(self)@ == (ServerView {
                clients: if registered(old(self)@.clients, addr) {
                    old(self)@.clients.remove(place_of(old(self)@.clients, addr))
                } else {
                    old(self)@.clients
                },
                ..old(self)@
            }),
            !registered(final(self)@.clients, addr),
    {
        let ghost before = self.clients@;
        match self.position_of(addr) {
            Some(i) => {
                self.clients.remove(i);
                proof {
                    let after = self.clients@;
                    lemma_place_of(before, addr, i as int);
                    assert forall|k: int| 0 <= k < after.len() implies (#[trigger] after[k])
                        == before[if k < i {
                        k
                    } else {
                        k + 1
                    }] by {}
                    assert forall|a: int, b: int| 0 <= a < b < after.len() implies (
                    #[trigger] after[a]).addr != (#[trigger] after[b]).addr by {
                        let a0 = if a < i { a } else { a + 1 };
                        let b0 = if b < i { b } else { b + 1 };
                        assert(before[a0].addr != before[b0].addr);
                    }
                    if registered(after, addr) {
                        let k = choose|k: int|
                            0 <= k < after.len() && (#[trigger] after[k]).addr == addr;
                        let k0 = if k < i { k } else { k + 1 };
                        if k0 < i {
                            assert(before[k0].addr != before[i as int].addr);
                        } else {
                            assert(before[i as int].addr != before[k0].addr);
                        }
                    }
                }
            },
            None => {},
        }
        ServerEvent::ClientDisconnected { addr, reason }
    }

    /// What to tell of a client whose handshake was refused: that the
    /// client at the address is disconnected, for the reason that the
    /// refusal gives. The client was never registered, so the registry
    /// stays as it is.
    pub fn handshake_refused(&self, addr: PeerAddr, error: &ConnectionError) -> (event: ServerEvent)
        ensures
            event matches ServerEvent::ClientDisconnected { addr: told, reason } && told == addr
                && reason@ == error.spec_message(),
    {
        ServerEvent::ClientDisconnected { addr, reason: error.message() }
    }

    /// Decide whether a message can be sent to the client at an address:
    /// a client that is not registered is a closed connection.
    pub fn send_to(&self, addr: &PeerAddr) -> (result: Result<(), ServerError>)
        ensures
            match result {
                Ok(()) => registered(self@.clients, *addr),
                Err(error) => !registered(self@.clients, *addr) && error == ServerError::Connection(
                    ConnectionError::Closed,
                ),
            },
    {
        match self.position_of(*addr) {
            Some(_) => Ok(()),
            None => Err(ServerError::Connection(ConnectionError::Closed)),
        }
    }

    /// The addresses to which a broadcast goes: those of all registered
    /// clients.
    pub fn broadcast(&self) -> (recipients: Vec<PeerAddr>)
        ensures
            recipients@.len() == self@.clients.len(),
            forall|i: int|
                0 <= i < recipients@.len() ==> #[trigger] recipients@[i] == self@.clients[i].addr,
    {
        let mut recipients: Vec<PeerAddr> = Vec::new();
        let mut i: usize = 0;
        while i < self.clients.len()
            invariant
                i <= self.clients@.len(),
                recipients@.len() == i,
                forall|k: int| 0 <= k < i ==> #[trigger] recipients@[k] == self.clients@[k].addr,
            decreases self.clients@.len() - i,
        {
            recipients.push(self.clients[i].addr);
            i += 1;
        }
        recipients
    }
}

} // verus!
