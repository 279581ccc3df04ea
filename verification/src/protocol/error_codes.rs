//! Error codes for the `Error` message.

use vstd::prelude::*;

verus! {

pub const PROTOCOL_MISMATCH: u32 = 1;

pub const AUTHENTICATION_FAILED: u32 = 2;

pub const HOST_NOT_FOUND: u32 = 3;

pub const CONNECTION_REFUSED: u32 = 4;

pub const INTERNAL_ERROR: u32 = 100;

} // verus!
