//! A client-side implementation of the Source RCON protocol: a length-prefixed,
//! little-endian binary protocol carried over one TCP connection.
//!
//! This crate holds the verified protocol core: the packet codec (`message`),
//! the frame assembler that gathers a complete frame out of arbitrary byte
//! chunks (`frame`), and the session logic that correlates responses with
//! requests and enforces the timeout/teardown policy (`client`). The
//! asynchronous socket itself lives with the caller, which feeds raw bytes in
//! and carries encoded frames out.

use vstd::prelude::*;

pub mod client;
pub mod errors;
pub mod frame;
pub mod message;

verus! {

/// Hard cap on a packet's declared size, set by the protocol.
pub const MAX_SIZE: i32 = 4096;

/// Fixed overhead counted in a packet's `size` field:
/// 4 bytes of id, 4 bytes of type, and the 2-byte terminator.
pub const PACKET_PADDING: i32 = 10;

} // verus!
