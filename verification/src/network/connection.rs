//! Connection handling.
//!
//! The state of one peer connection: the codec pair and its buffers, the
//! handshake, statistics and the connection's lifecycle. The caller owns
//! the stream: it writes what [`Connection::send`] framed, hands what it
//! read to [`Connection::absorb`], and takes frames from
//! [`Connection::recv`].

use bytes::BytesMut;
use vstd::prelude::*;

use crate::protocol::buffer;
use crate::protocol::buffer::{contents, max_len};
use crate::protocol::codec::{
    decode_step,
    frame_bytes,
    next_sequence,
    reports,
    CodecError,
    DecodeState,
    Decoder,
    Encoder,
    RawFrame,
    HEADER_SIZE,
    MAX_MESSAGE_SIZE,
};
use crate::protocol::message::{Message, ScreenInfo};
use crate::text::{decimal, joined, spec_decimal};

verus! {

/// Connection errors.
#[derive(Debug)]
pub enum ConnectionError {
    /// The stream failed; the text is the cause.
    Io(String),
    Protocol(CodecError),
    Closed,
    HandshakeFailed(String),
    VersionMismatch { local: u32, remote: u32 },
    Timeout,
    SendChannelClosed,
}

impl ConnectionError {
    /// The error in words.
    pub open spec fn spec_message(&self) -> Seq<char> {
        match *self {
            ConnectionError::Io(cause) => "IO error: "@ + cause@,
            ConnectionError::Protocol(error) => "Protocol error: "@ + error.spec_message(),
            ConnectionError::Closed => "Connection closed"@,
            ConnectionError::HandshakeFailed(reason) => "Handshake failed: "@ + reason@,
            ConnectionError::VersionMismatch { local, remote } => "Protocol version mismatch: local="@
                + spec_decimal(local as nat) + ", remote="@ + spec_decimal(remote as nat),
            ConnectionError::Timeout => "Connection timeout"@,
            ConnectionError::SendChannelClosed => "Send channel closed"@,
        }
    }

    /// The error in words.
    pub fn message(&self) -> (text: String)
        ensures
            text@ == self.spec_message(),
    {
        match self {
            ConnectionError::Io(cause) => joined("IO error: ", cause.as_str()),
            ConnectionError::Protocol(error) => joined("Protocol error: ", error.message().as_str()),
            ConnectionError::Closed => String::from_str("Connection closed"),
            ConnectionError::HandshakeFailed(reason) => joined("Handshake failed: ", reason.as_str()),
            ConnectionError::VersionMismatch { local, remote } => {
                let mut text = String::from_str("Protocol version mismatch: local=");
                text.append(decimal(*local as u64).as_str());
                text.append(", remote=");
                text.append(decimal(*remote as u64).as_str());
                text
            },
            ConnectionError::Timeout => String::from_str("Connection timeout"),
            ConnectionError::SendChannelClosed => String::from_str("Send channel closed"),
        }
    }
}

/// State of a connection.
#[derive(Debug, Clone, Copy, PartialEq, Eq, Structural)]
pub enum ConnectionState {
    /// Initial state, not yet connected.
    Disconnected,
    /// Stream established, awaiting handshake.
    Connecting,
    /// Handshake complete, ready for communication.
    Connected,
    /// Connection is closing gracefully.
    Closing,
    /// Connection has been closed.
    Closed,
}

impl ConnectionState {
    /// The legal transitions: from disconnected to connecting, on to
    /// connected, closing and closed; a connecting connection may fail
    /// directly to closed.
    pub open spec fn spec_may_become(self, next: ConnectionState) -> bool {
        match (self, next) {
            (ConnectionState::Disconnected, ConnectionState::Connecting) => true,
            (ConnectionState::Connecting, ConnectionState::Connected) => true,
            (ConnectionState::Connecting, ConnectionState::Closed) => true,
            (ConnectionState::Connected, ConnectionState::Closing) => true,
            (ConnectionState::Closing, ConnectionState::Closed) => true,
            _ => false,
        }
    }

    /// Whether the connection may go from this state to `next`.
    #[verifier::when_used_as_spec(spec_may_become)]
    pub fn may_become(self, next: ConnectionState) -> (legal: bool)
        ensures
            legal == self.spec_may_become(next),
    {
        match (self, next) {
            (ConnectionState::Disconnected, ConnectionState::Connecting) => true,
            (ConnectionState::Connecting, ConnectionState::Connected) => true,
            (ConnectionState::Connecting, ConnectionState::Closed) => true,
            (ConnectionState::Connected, ConnectionState::Closing) => true,
            (ConnectionState::Closing, ConnectionState::Closed) => true,
            _ => false,
        }
    }
}

/// Connection statistics. A counter that reaches the largest number it
/// can hold stays there.
#[derive(Debug, Clone, Copy, PartialEq, Eq, Structural)]
pub struct ConnectionStats {
    /// Messages sent.
    pub messages_sent: u64,
    /// Messages received.
    pub messages_received: u64,
    /// Bytes sent.
    pub bytes_sent: u64,
    /// Bytes received.
    pub bytes_received: u64,
    /// Round-trip time (microseconds).
    pub rtt_us: u64,
}

impl Default for ConnectionStats {
    fn default() -> (stats: ConnectionStats)
        ensures
            stats == (ConnectionStats {
                messages_sent: 0,
                messages_received: 0,
                bytes_sent: 0,
                bytes_received: 0,
                rtt_us: 0,
            }),
    {
        ConnectionStats {
            messages_sent: 0,
            messages_received: 0,
            bytes_sent: 0,
            bytes_received: 0,
            rtt_us: 0,
        }
    }
}

/// A count raised by `by`, held at the largest number a counter holds.
pub open spec fn raised(count: u64, by: int) -> u64 {
    if count + by > u64::MAX {
        u64::MAX
    } else {
        (count + by) as u64
    }
}

/// The reason that a server gives for refusing a client of another
/// protocol version.
pub open spec fn mismatch_reason(expected: u32, got: u32) -> Seq<char> {
    "Protocol version mismatch: expected "@ + spec_decimal(expected as nat) + ", got "@
        + spec_decimal(got as nat)
}

/// Whether the first frame from a client opens a connection at the
/// server's protocol version: only a `Hello` of that version does.
pub open spec fn opens_handshake(first: Option<Message>, version: u32) -> bool {
    first matches Some(Message::Hello { protocol_version, .. }) && protocol_version == version
}

/// Whether the first frame from a server completes a connection at the
/// client's protocol version: only an accepting `HelloAck` of that version
/// does.
pub open spec fn completes_handshake(first: Option<Message>, version: u32) -> bool {
    first matches Some(Message::HelloAck { protocol_version, accepted, .. }) && protocol_version
        == version && accepted
}

/// The answer with which a server accepts a client.
pub open spec fn accepting_ack(version: u32, screen: ScreenInfo) -> Message {
    Message::HelloAck { protocol_version: version, screen_info: screen, accepted: true, reason: None }
}

/// Two endpoints of one protocol version connect by exactly one exchange,
/// and by no other: the client's `Hello` opens the connection at the
/// server, the server's accepting `HelloAck` completes it at the client,
/// and nothing but a `Hello` opens and nothing but a `HelloAck` completes
/// one.
pub proof fn lemma_handshake_exchange(version: u32, client_screen: ScreenInfo, server_screen: ScreenInfo)
    ensures
        opens_handshake(
            Some(Message::Hello { protocol_version: version, screen_info: client_screen }),
            version,
        ),
        completes_handshake(Some(accepting_ack(version, server_screen)), version),
        forall|first: Option<Message>| #[trigger]
            opens_handshake(first, version) ==> first is Some && first->Some_0 is Hello,
        forall|first: Option<Message>| #[trigger]
            completes_handshake(first, version) ==> first is Some && first->Some_0 is HelloAck,
{
}

/// What the server's side of the handshake decides on the first frame
/// from a client.
#[derive(Debug)]
pub enum ServerHandshake {
    /// The client is accepted: `reply` is to be sent, and once it has been
    /// the connection is established with the client's screen.
    Accept { reply: Message, remote_screen: ScreenInfo },
    /// The client is refused with `error`, after `reply`, if there is one,
    /// has been sent.
    Refuse { reply: Option<Message>, error: ConnectionError },
}

/// What the server's side of the handshake decides on the first frame
/// from a client, `None` standing for a stream that closed before any
/// frame.
///
/// A `Hello` of the server's own version is accepted with a `HelloAck`
/// that carries the server's screen. A `Hello` of another version is
/// answered with a refusing `HelloAck`, which gives the server's version,
/// its screen and the reason, and fails with `VersionMismatch`. Anything
/// else fails the handshake without an answer.
pub open spec fn server_decides(
    first: Option<Message>,
    local_version: u32,
    local_screen: ScreenInfo,
    decision: ServerHandshake,
) -> bool {
    match first {
        Some(Message::Hello { protocol_version, screen_info }) => if protocol_version
            == local_version {
            &&& decision matches ServerHandshake::Accept { reply, remote_screen }
            &&& remote_screen == screen_info
            &&& reply matches Message::HelloAck {
                protocol_version: version,
                screen_info: screen,
                accepted,
                reason,
            }
            &&& version == local_version
            &&& screen == local_screen
            &&& accepted
            &&& reason is None
        } else {
            &&& decision matches ServerHandshake::Refuse { reply, error }
            &&& error == (ConnectionError::VersionMismatch {
                local: local_version,
                remote: protocol_version,
            })
            &&& reply matches Some(
                Message::HelloAck {
                    protocol_version: version,
                    screen_info: screen,
                    accepted,
                    reason,
                },
            )
            &&& version == local_version
            &&& screen == local_screen
            &&& !accepted
            &&& reason matches Some(text)
            &&& text@ == mismatch_reason(local_version, protocol_version)
        },
        Some(_) => {
            &&& decision matches ServerHandshake::Refuse { reply, error }
            &&& reply is None
            &&& error matches ConnectionError::HandshakeFailed(text)
            &&& text@ == "Expected Hello message"@
        },
        None => {
            &&& decision matches ServerHandshake::Refuse { reply, error }
            &&& reply is None
            &&& error matches ConnectionError::HandshakeFailed(text)
            &&& text@ == "Connection closed during handshake"@
        },
    }
}

/// The server's side of the handshake at protocol version `local_version`:
/// what to answer to the first frame from a client, `None` standing for a
/// stream that closed before any frame.
///
/// A `Hello` of the server's own version is accepted with a `HelloAck`
/// that carries the server's screen. A `Hello` of another version is
/// answered with a refusing `HelloAck` and fails with `VersionMismatch`.
/// Anything else fails the handshake without an answer.
pub fn server_handshake(
    first: Option<Message>,
    local_version: u32,
    local_screen: &ScreenInfo,
) -> (decision: ServerHandshake)
    ensures
        decision is Accept <==> opens_handshake(first, local_version),
        decision matches ServerHandshake::Accept { reply, .. } ==> reply == accepting_ack(
            local_version,
            *local_screen,
        ),
        server_decides(first, local_version, *local_screen, decision),
{
    match first {
        None => ServerHandshake::Refuse {
            reply: None,
            error: ConnectionError::HandshakeFailed(
                String::from_str("Connection closed during handshake"),
            ),
        },
        Some(Message::Hello { protocol_version, screen_info }) => {
            // Check protocol version
            if protocol_version != local_version {
                let mut reason = String::from_str("Protocol version mismatch: expected ");
                reason.append(decimal(local_version as u64).as_str());
                reason.append(", got ");
                reason.append(decimal(protocol_version as u64).as_str());
                ServerHandshake::Refuse {
                    reply: Some(
                        Message::HelloAck {
                            protocol_version: local_version,
                            screen_info: local_screen.clone(),
                            accepted: false,
                            reason: Some(reason),
                        },
                    ),
                    error: ConnectionError::VersionMismatch {
                        local: local_version,
                        remote: protocol_version,
                    },
                }
            } else {
                ServerHandshake::Accept {
                    reply: Message::HelloAck {
                        protocol_version: local_version,
                        screen_info: local_screen.clone(),
                        accepted: true,
                        reason: None,
                    },
                    remote_screen: screen_info,
                }
            }
        },
        Some(_) => ServerHandshake::Refuse {
            reply: None,
            error: ConnectionError::HandshakeFailed(String::from_str("Expected Hello message")),
        },
    }
}

/// The frame that opens the client's side of the handshake.
pub fn client_hello(local_version: u32, local_screen: &ScreenInfo) -> (hello: Message)
    ensures
        hello == (Message::Hello { protocol_version: local_version, screen_info: *local_screen }),
{
    Message::Hello { protocol_version: local_version, screen_info: local_screen.clone() }
}

/// What the first frame from the server means to the client's side of
/// the handshake, `None` standing for a stream that closed before any
/// frame.
///
/// A `HelloAck` of another version fails with `VersionMismatch`; one of
/// the client's version that refuses fails with the server's reason; one
/// that accepts yields the server's screen. Anything else fails the
/// handshake.
pub open spec fn client_decides(
    first: Option<Message>,
    local_version: u32,
    outcome: Result<ScreenInfo, ConnectionError>,
) -> bool {
    match first {
        Some(Message::HelloAck { protocol_version, screen_info, accepted, reason }) => {
            if protocol_version != local_version {
                outcome matches Err(error) && error == (ConnectionError::VersionMismatch {
                    local: local_version,
                    remote: protocol_version,
                })
            } else if !accepted {
                &&& outcome matches Err(ConnectionError::HandshakeFailed(text))
                &&& text@ == (match reason {
                    Some(given) => given@,
                    None => "Connection rejected"@,
                })
            } else {
                outcome matches Ok(screen) && screen == screen_info
            }
        },
        Some(_) => {
            &&& outcome matches Err(ConnectionError::HandshakeFailed(text))
            &&& text@ == "Expected HelloAck message"@
        },
        None => {
            &&& outcome matches Err(ConnectionError::HandshakeFailed(text))
            &&& text@ == "Connection closed during handshake"@
        },
    }
}

/// The client's side of the handshake at protocol version `local_version`:
/// what the first frame from the server means, `None` standing for a
/// stream that closed before any frame.
///
/// A `HelloAck` of another version fails with `VersionMismatch`; one of
/// the client's version that refuses fails with the server's reason; one
/// that accepts yields the server's screen. Anything else fails the
/// handshake.
pub fn client_handshake(first: Option<Message>, local_version: u32) -> (outcome: Result<
    ScreenInfo,
    ConnectionError,
>)
    ensures
        outcome is Ok <==> completes_handshake(first, local_version),
        client_decides(first, local_version, outcome),
{
    match first {
        None => Err(
            ConnectionError::HandshakeFailed(String::from_str("Connection closed during handshake")),
        ),
        Some(Message::HelloAck { protocol_version, screen_info, accepted, reason }) => {
            if protocol_version != local_version {
                Err(ConnectionError::VersionMismatch { local: local_version, remote: protocol_version })
            } else if !accepted {
                let text = match reason {
                    Some(given) => given,
                    None => String::from_str("Connection rejected"),
                };
                Err(ConnectionError::HandshakeFailed(text))
            } else {
                Ok(screen_info)
            }
        },
        Some(_) => Err(
            ConnectionError::HandshakeFailed(String::from_str("Expected HelloAck message")),
        ),
    }
}

/// What a heartbeat's answer means: `reply` is the frame that came after a
/// `Heartbeat` stamped `sent`, `None` standing for a closed stream, and
/// `elapsed_us` the time since the heartbeat left. The round-trip time is
/// the elapsed time where the answer is a `HeartbeatAck` with the
/// heartbeat's stamp; a closed stream fails with `Closed`, any other frame
/// as a protocol error.
pub fn heartbeat_round_trip(sent: u64, reply: Option<Message>, elapsed_us: u64) -> (outcome: Result<
    u64,
    ConnectionError,
>)
    ensures
        match reply {
            Some(Message::HeartbeatAck { timestamp }) if timestamp == sent => outcome matches Ok(rtt)
                && rtt == elapsed_us,
            Some(_) => outcome matches Err(ConnectionError::Protocol(CodecError::InvalidMagic)),
            None => outcome matches Err(ConnectionError::Closed),
        },
{
    match reply {
        None => Err(ConnectionError::Closed),
        Some(Message::HeartbeatAck { timestamp }) => {
            if timestamp == sent {
                Ok(elapsed_us)
            } else {
                Err(ConnectionError::Protocol(CodecError::InvalidMagic))
            }
        },
        Some(_) => Err(ConnectionError::Protocol(CodecError::InvalidMagic)),
    }
}

/// The state of a connection to a remote host.
pub struct Connection {
    /// Protocol encoder.
    encoder: Encoder,
    /// Protocol decoder.
    decoder: Decoder,
    /// Bytes read from the stream and not yet decoded.
    read_buf: BytesMut,
    /// The frame that is on its way to the stream.
    write_buf: BytesMut,
    /// Remote screen info (populated after handshake).
    remote_screen_info: Option<ScreenInfo>,
    /// Connection state.
    state: ConnectionState,
    /// Statistics.
    stats: ConnectionStats,
}

/// A connection as plain values.
pub struct ConnectionView {
    /// The sequence number of the next frame to be sent.
    pub next_sequence: u32,
    /// Where the decoder is in the incoming stream.
    pub decoder: DecodeState,
    /// The bytes read and not yet decoded.
    pub unread: Seq<u8>,
    /// The bytes of the frame staged for sending.
    pub staged: Seq<u8>,
    pub remote_screen_info: Option<ScreenInfo>,
    pub state: ConnectionState,
    pub stats: ConnectionStats,
}

/// Room that the read and write buffers are created with.
pub const BUFFER_CAPACITY: usize = 4096;

impl View for Connection {
    type V = ConnectionView;

    closed spec fn view(&self) -> ConnectionView {
        ConnectionView {
            next_sequence: self.encoder@,
            decoder: self.decoder@,
            unread: contents(self.read_buf),
            staged: contents(self.write_buf),
            remote_screen_info: self.remote_screen_info,
            state: self.state,
            stats: self.stats,
        }
    }
}

impl Connection {
    /// The state of a connection over a stream that has just been
    /// established: awaiting the handshake, with nothing sent or received.
    pub fn new() -> (connection: Connection)
        ensures
            connection@ == (ConnectionView {
                next_sequence: 0,
                decoder: DecodeState::Header,
                unread: Seq::empty(),
                staged: Seq::empty(),
                remote_screen_info: None,
                state: ConnectionState::Connecting,
                stats: ConnectionStats {
                    messages_sent: 0,
                    messages_received: 0,
                    bytes_sent: 0,
                    bytes_received: 0,
                    rtt_us: 0,
                },
            }),
    {
        Connection {
            encoder: Encoder::new(),
            decoder: Decoder::new(),
            read_buf: buffer::with_capacity(BUFFER_CAPACITY),
            write_buf: buffer::with_capacity(BUFFER_CAPACITY),
            remote_screen_info: None,
            state: ConnectionState::Connecting,
            stats: ConnectionStats::default(),
        }
    }

    /// Get the current connection state.
    pub fn state(&self) -> (state: ConnectionState)
        ensures
            state == self@.state,
    {
        self.state
    }

    /// Get the remote screen info (if handshake completed).
    pub fn remote_screen_info(&self) -> (info: Option<&ScreenInfo>)
        ensures
            match info {
                Some(screen) => self@.remote_screen_info == Some(*screen),
                None => self@.remote_screen_info is None,
            },
    {
        self.remote_screen_info.as_ref()
    }

    /// Get connection statistics.
    pub fn stats(&self) -> (stats: &ConnectionStats)
        ensures
            *stats == self@.stats,
    {
        &self.stats
    }

    /// Check if the connection is still active.
    pub fn is_active(&self) -> (active: bool)
        ensures
            active == (self@.state == ConnectionState::Connected),
    {
        match self.state {
            ConnectionState::Connected => true,
            _ => false,
        }
    }

    /// The number of bytes read and not yet decoded.
    pub fn unread_len(&self) -> (n: usize)
        ensures
            n == self@.unread.len(),
    {
        buffer::len(&self.read_buf)
    }

    /// The frame staged for sending.
    pub fn staged(&self) -> (buf: &BytesMut)
        ensures
            contents(*buf) == self@.staged,
    {
        &self.write_buf
    }

    /// Send a message, as far as the buffer: the frame that carries
    /// `payload`, the serialized form of `message`, takes the place of
    /// what was staged. The caller writes [`Connection::staged`] to the
    /// stream and records it with [`Connection::sent`].
    pub fn send(&mut self, message: &Message, payload: &[u8]) -> (result: Result<
        (),
        ConnectionError,
    >)
        ensures
            payload@.len() > MAX_MESSAGE_SIZE ==> {
                &&& result matches Err(
                    ConnectionError::Protocol(CodecError::MessageTooLarge(size, limit)),
                )
                &&& size == payload@.len()
                &&& limit == MAX_MESSAGE_SIZE
                &&& final(self)@ == (ConnectionView { staged: Seq::empty(), ..old(self)@ })
            },
            payload@.len() <= MAX_MESSAGE_SIZE ==> {
                &&& result is Ok
                &&& final(self)@ == (ConnectionView {
                    staged: frame_bytes(
                        message.spec_type_id(),
                        old(self)@.next_sequence,
                        payload@,
                    ),
                    next_sequence: next_sequence(old(self)@.next_sequence),
                    ..old(self)@
                })
            },
    {
        let size: usize = payload.len();
        buffer::clear(&mut self.write_buf);
        assert(size <= MAX_MESSAGE_SIZE ==> HEADER_SIZE + size <= max_len());
        match self.encoder.encode(message, payload, &mut self.write_buf) {
            Ok(()) => {
                assert(contents(self.write_buf) =~= frame_bytes(
                    message.spec_type_id(),
                    old(self)@.next_sequence,
                    payload@,
                ));
                Ok(())
            },
            Err(error) => Err(ConnectionError::Protocol(error)),
        }
    }

    /// Record that the staged frame has been written to the stream.
    pub fn sent(&mut self)
        ensures
            final(self)@ == (ConnectionView {
                stats: ConnectionStats {
                    messages_sent: raised(old(self)@.stats.messages_sent, 1),
                    bytes_sent: raised(old(self)@.stats.bytes_sent, old(self)@.staged.len() as int),
                    ..old(self)@.stats
                },
                ..old(self)@
            }),
    {
        let written: usize = buffer::len(&self.write_buf);
        self.stats.messages_sent = self.stats.messages_sent.saturating_add(1);
        self.stats.bytes_sent = self.stats.bytes_sent.saturating_add(written as u64);
    }

    /// Receive a frame out of the bytes read so far. `Ok(None)` means
    /// that more have to be read first and handed to
    /// [`Connection::absorb`].
    pub fn recv(&mut self) -> (result: Result<Option<RawFrame>, ConnectionError>)
        ensures
            ({
                let step = decode_step(old(self)@.decoder, old(self)@.unread);
                &&& final(self)@ == (ConnectionView {
                    decoder: step.state,
                    unread: step.rest,
                    stats: ConnectionStats {
                        messages_received: if step.decoded is Frame {
                            raised(old(self)@.stats.messages_received, 1)
                        } else {
                            old(self)@.stats.messages_received
                        },
                        ..old(self)@.stats
                    },
                    ..old(self)@
                })
                &&& match result {
                    Ok(frame) => reports(Ok(frame), step.decoded),
                    Err(ConnectionError::Protocol(error)) => reports(Err(error), step.decoded),
                    Err(_) => false,
                }
            }),
    {
        match self.decoder.decode(&mut self.read_buf) {
            Ok(Some(frame)) => {
                self.stats.messages_received = self.stats.messages_received.saturating_add(1);
                Ok(Some(frame))
            },
            Ok(None) => Ok(None),
            Err(error) => Err(ConnectionError::Protocol(error)),
        }
    }

    /// Take in what a read from the stream returned. A read of no bytes
    /// is the end of the stream: a clean close, `Ok(false)`, where nothing
    /// is left undecoded, and the error `Closed` in the middle of a frame.
    /// Any other read is appended to the bytes to decode, `Ok(true)`.
    pub fn absorb(&mut self, data: &[u8]) -> (result: Result<bool, ConnectionError>)
        requires
            old(self)@.unread.len() + data@.len() <= max_len(),
        ensures
            data@.len() == 0 ==> {
                &&& final(self)@ == old(self)@
                &&& if old(self)@.unread.len() == 0 {
                    result matches Ok(false)
                } else {
                    result matches Err(ConnectionError::Closed)
                }
            },
            data@.len() > 0 ==> {
                &&& result matches Ok(true)
                &&& final(self)@ == (ConnectionView {
                    unread: old(self)@.unread + data@,
                    stats: ConnectionStats {
                        bytes_received: raised(old(self)@.stats.bytes_received, data@.len() as int),
                        ..old(self)@.stats
                    },
                    ..old(self)@
                })
            },
    {
        if data.len() == 0 {
            if buffer::len(&self.read_buf) == 0 {
                return Ok(false);
            } else {
                return Err(ConnectionError::Closed);
            }
        }
        buffer::extend_from_slice(&mut self.read_buf, data);
        self.stats.bytes_received = self.stats.bytes_received.saturating_add(data.len() as u64);
        Ok(true)
    }

    /// Record that the handshake is complete: the connection is
    /// established with the remote host's screen.
    pub fn establish(&mut self, remote_screen: ScreenInfo)
        requires
            old(self)@.state.may_become(ConnectionState::Connected),
        ensures
            final(self)@ == (ConnectionView {
                remote_screen_info: Some(remote_screen),
                state: ConnectionState::Connected,
                ..old(self)@
            }),
    {
        self.remote_screen_info = Some(remote_screen);
        self.state = ConnectionState::Connected;
    }

    /// The server's side of the handshake, at this library's protocol
    /// version: what to answer to the first frame from the client. Once
    /// an accepting answer has been sent, [`Connection::establish`]
    /// completes the handshake.
    pub fn handshake_server(&self, first: Option<Message>, local_screen: &ScreenInfo) -> (decision:
        ServerHandshake)
        ensures
            server_decides(first, crate::protocol::PROTOCOL_VERSION, *local_screen, decision),
            decision is Accept <==> opens_handshake(first, crate::protocol::PROTOCOL_VERSION),
    {
        server_handshake(first, crate::protocol::PROTOCOL_VERSION, local_screen)
    }

    /// The client's side of the handshake, at this library's protocol
    /// version, on the first frame from the server: an accepting
    /// `HelloAck` of that version establishes the connection with the
    /// server's screen; anything else fails and changes nothing.
    pub fn handshake_client(&mut self, first: Option<Message>) -> (result: Result<
        (),
        ConnectionError,
    >)
        requires
            old(self)@.state.may_become(ConnectionState::Connected),
        ensures
            result is Ok <==> completes_handshake(first, crate::protocol::PROTOCOL_VERSION),
            match result {
                Ok(()) => {
                    &&& final(self)@.remote_screen_info matches Some(screen)
                    &&& client_decides(
                        first,
                        crate::protocol::PROTOCOL_VERSION,
                        Ok::<ScreenInfo, ConnectionError>(screen),
                    )
                    &&& final(self)@ == (ConnectionView {
                        remote_screen_info: Some(screen),
                        state: ConnectionState::Connected,
                        ..old(self)@
                    })
                },
                Err(error) => {
                    &&& client_decides(
                        first,
                        crate::protocol::PROTOCOL_VERSION,
                        Err::<ScreenInfo, ConnectionError>(error),
                    )
                    &&& final(self)@ == old(self)@
                },
            },
    {
        match client_handshake(first, crate::protocol::PROTOCOL_VERSION) {
            Ok(remote_screen) => {
                self.establish(remote_screen);
                Ok(())
            },
            Err(error) => Err(error),
        }
    }

    /// Take in the answer to a heartbeat stamped `sent`, which came
    /// `elapsed_us` microseconds after the heartbeat left: the round-trip
    /// time is recorded where the answer is the heartbeat's.
    pub fn ping(&mut self, sent: u64, reply: Option<Message>, elapsed_us: u64) -> (result: Result<
        u64,
        ConnectionError,
    >)
        ensures
            match reply {
                Some(Message::HeartbeatAck { timestamp }) if timestamp == sent => {
                    &&& result matches Ok(rtt)
                    &&& rtt == elapsed_us
                    &&& final(self)@ == (ConnectionView {
                        stats: ConnectionStats { rtt_us: elapsed_us, ..old(self)@.stats },
                        ..old(self)@
                    })
                },
                Some(_) => {
                    &&& result matches Err(ConnectionError::Protocol(CodecError::InvalidMagic))
                    &&& final(self)@ == old(self)@
                },
                None => {
                    &&& result matches Err(ConnectionError::Closed)
                    &&& final(self)@ == old(self)@
                },
            },
    {
        match heartbeat_round_trip(sent, reply, elapsed_us) {
            Ok(rtt_us) => {
                self.record_rtt(rtt_us);
                Ok(rtt_us)
            },
            Err(error) => Err(error),
        }
    }

    /// Record the round-trip time that a heartbeat measured.
    pub fn record_rtt(&mut self, rtt_us: u64)
        ensures
            final(self)@ == (ConnectionView {
                stats: ConnectionStats { rtt_us, ..old(self)@.stats },
                ..old(self)@
            }),
    {
        self.stats.rtt_us = rtt_us;
    }

    /// Close the connection gracefully: the connection is closing, and
    /// the `Disconnect` that comes back is to be sent before the stream is
    /// shut down and [`Connection::finish_close`] records it.
    pub fn close(&mut self, reason: &str) -> (farewell: Message)
        requires
            old(self)@.state.may_become(ConnectionState::Closing),
        ensures
            final(self)@ == (ConnectionView { state: ConnectionState::Closing, ..old(self)@ }),
            farewell matches Message::Disconnect { reason: text } && text@ == reason@,
    {
        self.state = ConnectionState::Closing;
        Message::Disconnect { reason: reason.to_owned() }
    }

    /// Record that the stream has been shut down.
    pub fn finish_close(&mut self)
        requires
            old(self)@.state.may_become(ConnectionState::Closed),
        ensures
            final(self)@ == (ConnectionView { state: ConnectionState::Closed, ..old(self)@ }),
    {
        self.state = ConnectionState::Closed;
    }
}

} // verus!
