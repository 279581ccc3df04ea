//! The message pump of a connection: for each thing that happens on an
//! established connection, what the endpoint does about it.
//!
//! The caller runs the loop. It waits on the stream, on the queue of
//! outbound messages, on its timer and on the shutdown signal, hands what
//! happened to [`server_pump`] or [`client_pump`], and carries out the
//! action that comes back.

use vstd::prelude::*;

use crate::network::connection::ConnectionError;
use crate::protocol::message::Message;
use crate::text::joined;

verus! {

/// Something that happened on an established connection.
#[derive(Debug)]
pub enum PumpEvent {
    /// A frame arrived from the peer.
    Received(Message),
    /// The peer closed the stream between two frames.
    StreamClosed,
    /// Receiving failed.
    ReceiveFailed(ConnectionError),
    /// A message to send was taken from the outbound queue.
    Outbound(Message),
    /// Writing an outbound message to the stream failed.
    SendFailed(ConnectionError),
    /// The heartbeat timer fired; the number is the time in microseconds
    /// since the epoch.
    HeartbeatDue(u64),
    /// Writing a heartbeat to the stream failed.
    HeartbeatFailed(ConnectionError),
    /// The owner of the connection asked the pump to stop.
    Shutdown,
}

/// What the pump does about an event.
#[derive(Debug)]
pub enum PumpAction {
    /// Send the message to the peer and go on whether or not that works.
    Reply(Message),
    /// Send the message to the peer; a failure is the event `SendFailed`.
    Transmit(Message),
    /// Send the heartbeat to the peer; a failure is the event
    /// `HeartbeatFailed`.
    Beat(Message),
    /// Hand the message to the owner of the connection.
    Deliver(Message),
    /// Copy the connection's round-trip time to its handle.
    UpdateRtt,
    /// Go on with the next event.
    Continue,
    /// Leave the loop; the text is the reason for the disconnect.
    Stop(String),
}

/// Whether `action` is to stop for the reason `reason`.
pub open spec fn stops_with(action: PumpAction, reason: Seq<char>) -> bool {
    action matches PumpAction::Stop(text) && text@ == reason
}

/// What either pump does about an event that both treat alike: the events
/// of the stream and of the outbound queue.
///
/// A `Disconnect` stops the pump with the peer's reason. A `Heartbeat` is
/// answered with a `HeartbeatAck` of the same stamp and goes no further.
/// A closed stream and a failure stop the pump. An outbound message is
/// sent.
pub open spec fn common_pump(event: PumpEvent, action: PumpAction) -> bool {
    match event {
        PumpEvent::Received(Message::Disconnect { reason }) => action == PumpAction::Stop(reason),
        PumpEvent::Received(Message::Heartbeat { timestamp }) => action == PumpAction::Reply(
            Message::HeartbeatAck { timestamp },
        ),
        PumpEvent::StreamClosed => stops_with(action, "Connection closed"@),
        PumpEvent::ReceiveFailed(error) => stops_with(action, "Error: "@ + error.spec_message()),
        PumpEvent::Outbound(message) => action == PumpAction::Transmit(message),
        PumpEvent::SendFailed(error) => stops_with(action, "Send error: "@ + error.spec_message()),
        _ => true,
    }
}

/// What the server's pump does about an event: besides what both pumps
/// do, every other frame is delivered, a shutdown stops the pump, and the
/// heartbeat timer, which the server does not run, changes nothing.
pub open spec fn server_pump_rule(event: PumpEvent, action: PumpAction) -> bool {
    &&& common_pump(event, action)
    &&& match event {
        PumpEvent::Received(Message::Disconnect { .. }) => true,
        PumpEvent::Received(Message::Heartbeat { .. }) => true,
        PumpEvent::Received(message) => action == PumpAction::Deliver(message),
        PumpEvent::HeartbeatDue(_) => action == PumpAction::Continue,
        PumpEvent::HeartbeatFailed(_) => action == PumpAction::Continue,
        PumpEvent::Shutdown => stops_with(action, "Server shutting down"@),
        _ => true,
    }
}

/// What the client's pump does about an event: besides what both pumps
/// do, a `HeartbeatAck` updates the round-trip time, every other frame is
/// delivered, the heartbeat timer sends a `Heartbeat` stamped with the
/// time, and a failed heartbeat or a shutdown stops the pump.
pub open spec fn client_pump_rule(event: PumpEvent, action: PumpAction) -> bool {
    &&& common_pump(event, action)
    &&& match event {
        PumpEvent::Received(Message::Disconnect { .. }) => true,
        PumpEvent::Received(Message::Heartbeat { .. }) => true,
        PumpEvent::Received(Message::HeartbeatAck { .. }) => action == PumpAction::UpdateRtt,
        PumpEvent::Received(message) => action == PumpAction::Deliver(message),
        PumpEvent::HeartbeatDue(now_us) => action == PumpAction::Beat(
            Message::Heartbeat { timestamp: now_us },
        ),
        PumpEvent::HeartbeatFailed(error) => stops_with(
            action,
            "Heartbeat error: "@ + error.spec_message(),
        ),
        PumpEvent::Shutdown => stops_with(action, "Client shutdown requested"@),
        _ => true,
    }
}

/// One step of the pump that a server runs for each of its clients.
pub fn server_pump(event: PumpEvent) -> (action: PumpAction)
    ensures
        server_pump_rule(event, action),
{
    match event {
        PumpEvent::Received(message) => match message {
            Message::Disconnect { reason } => PumpAction::Stop(reason),
            Message::Heartbeat { timestamp } => {
                // Respond to heartbeat
                PumpAction::Reply(Message::HeartbeatAck { timestamp })
            },
            other => {
                // Forward message to event handler
                PumpAction::Deliver(other)
            },
        },
        PumpEvent::StreamClosed => PumpAction::Stop(String::from_str("Connection closed")),
        PumpEvent::ReceiveFailed(error) => PumpAction::Stop(
            joined("Error: ", error.message().as_str()),
        ),
        PumpEvent::Outbound(message) => PumpAction::Transmit(message),
        PumpEvent::SendFailed(error) => PumpAction::Stop(
            joined("Send error: ", error.message().as_str()),
        ),
        PumpEvent::HeartbeatDue(_) => PumpAction::Continue,
        PumpEvent::HeartbeatFailed(_) => PumpAction::Continue,
        PumpEvent::Shutdown => PumpAction::Stop(String::from_str("Server shutting down")),
    }
}

/// One step of the pump that a client runs for its connection.
pub fn client_pump(event: PumpEvent) -> (action: PumpAction)
    ensures
        client_pump_rule(event, action),
{
    match event {
        PumpEvent::Received(message) => match message {
            Message::Disconnect { reason } => PumpAction::Stop(reason),
            Message::Heartbeat { timestamp } => PumpAction::Reply(
                Message::HeartbeatAck { timestamp },
            ),
            Message::HeartbeatAck { .. } => {
                // Update RTT
                PumpAction::UpdateRtt
            },
            other => PumpAction::Deliver(other),
        },
        PumpEvent::StreamClosed => PumpAction::Stop(String::from_str("Connection closed")),
        PumpEvent::ReceiveFailed(error) => PumpAction::Stop(
            joined("Error: ", error.message().as_str()),
        ),
        PumpEvent::Outbound(message) => PumpAction::Transmit(message),
        PumpEvent::SendFailed(error) => PumpAction::Stop(
            joined("Send error: ", error.message().as_str()),
        ),
        PumpEvent::HeartbeatDue(now_us) => PumpAction::Beat(Message::Heartbeat { timestamp: now_us }),
        PumpEvent::HeartbeatFailed(error) => PumpAction::Stop(
            joined("Heartbeat error: ", error.message().as_str()),
        ),
        PumpEvent::Shutdown => PumpAction::Stop(String::from_str("Client shutdown requested")),
    }
}

/// The farewell that a server sends, as well as it can, when the pump of a
/// client has ended.
pub fn session_ended() -> (farewell: Message)
    ensures
        farewell matches Message::Disconnect { reason } && reason@ == "Session ended"@,
{
    Message::Disconnect { reason: String::from_str("Session ended") }
}

} // verus!
