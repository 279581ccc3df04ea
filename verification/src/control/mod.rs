//! Control transfer: which host the keyboard and mouse drive.
//!
//! The controller runs on the primary host, where the devices are; the
//! follower on each secondary host. Both are state machines: the caller
//! hands them what was captured or received, with the time where it
//! matters, and carries out the actions that come back.

pub mod controller;
pub mod follower;

pub use controller::{
    input_event_to_message, ClientEntry, ControlState, Controller, ControllerAction,
};
pub use follower::{Follower, FollowerAction, FollowerControlState, InjectorCommand};
