//! A software KVM: one keyboard and mouse on a primary host drive the
//! secondary hosts on the same network.
//!
//! The library holds the wire protocol, the screen layout and edge
//! detection, the portable input event model, and the control-transfer
//! state machines of both roles. It performs no I/O: sockets, timers and
//! the platform's capture and injection back-ends belong to the caller,
//! which feeds events in and carries the resulting actions out.

pub mod config;
pub mod control;
pub mod discovery;
pub mod input;
pub mod network;
pub mod protocol;
pub mod screen;
pub mod text;
