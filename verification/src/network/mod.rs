//! Network: what the two endpoints of a connection decide.
//!
//! Sockets, timers and channels belong to the caller. The types here hold
//! the state of a connection, a server and a client, and say for each
//! event what is to be sent, delivered or recorded.

use vstd::prelude::*;

pub mod client;
pub mod connection;
pub mod pump;
pub mod server;

pub use client::{Client, ClientError, ClientEvent, ClientState};
pub use connection::{Connection, ConnectionError, ConnectionState, ConnectionStats};
pub use pump::{client_pump, server_pump, PumpAction, PumpEvent};
pub use server::{ClientInfo, Server, ServerError, ServerEvent};

verus! {

/// The address of a peer's socket, as plain values.
#[derive(Debug, Clone, Copy, PartialEq, Eq, Structural, Hash)]
pub struct PeerAddr {
    /// Whether `ip` is an IPv6 address; else it is an IPv4 address in the
    /// low 32 bits.
    pub v6: bool,
    pub ip: u128,
    pub port: u16,
}

/// Configuration for network operations.
#[derive(Debug, Clone)]
pub struct NetworkConfig {
    /// Port to listen on or connect to.
    pub port: u16,
    /// Whether to use TLS encryption.
    pub use_tls: bool,
    /// Path to TLS certificate (for server).
    pub cert_path: Option<String>,
    /// Path to TLS private key (for server).
    pub key_path: Option<String>,
    /// Connection timeout in milliseconds.
    pub connect_timeout_ms: u64,
    /// Heartbeat interval in milliseconds.
    pub heartbeat_interval_ms: u64,
    /// Maximum message size.
    pub max_message_size: usize,
}

impl Default for NetworkConfig {
    fn default() -> (config: NetworkConfig)
        ensures
            config == NetworkConfig::spec_new(crate::protocol::DEFAULT_PORT),
    {
        NetworkConfig::new(crate::protocol::DEFAULT_PORT)
    }
}

impl NetworkConfig {
    /// The configuration for a port with every other setting at its
    /// default.
    pub open spec fn spec_new(port: u16) -> NetworkConfig {
        NetworkConfig {
            port,
            use_tls: true,
            cert_path: None,
            key_path: None,
            connect_timeout_ms: 5000,
            heartbeat_interval_ms: 1000,
            max_message_size: crate::protocol::codec::MAX_MESSAGE_SIZE,
        }
    }

    pub fn new(port: u16) -> (config: NetworkConfig)
        ensures
            config == NetworkConfig::spec_new(port),
    {
        NetworkConfig {
            port,
            use_tls: true,
            cert_path: None,
            key_path: None,
            connect_timeout_ms: 5000,
            heartbeat_interval_ms: 1000,
            max_message_size: crate::protocol::codec::MAX_MESSAGE_SIZE,
        }
    }

    pub fn with_tls(self, cert_path: String, key_path: String) -> (config: NetworkConfig)
        ensures
            config == (NetworkConfig {
                use_tls: true,
                cert_path: Some(cert_path),
                key_path: Some(key_path),
                ..self
            }),
    {
        let mut config = self;
        config.use_tls = true;
        config.cert_path = Some(cert_path);
        config.key_path = Some(key_path);
        config
    }

    pub fn without_tls(self) -> (config: NetworkConfig)
        ensures
            config == (NetworkConfig { use_tls: false, ..self }),
    {
        let mut config = self;
        config.use_tls = false;
        config
    }
}

} // verus!
