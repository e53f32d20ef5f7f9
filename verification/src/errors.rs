//! The error taxonomy of the protocol core.
//!
//! Every fallible operation in this crate returns one of these variants; no
//! error is swallowed and no default value is substituted. The kinds are
//! distinguishable so a caller can decide whether to reconnect, reprompt for
//! credentials, or fix a malformed input.

use vstd::prelude::*;

verus! {

/// A typed protocol or transport failure.
#[derive(Clone, Copy, Debug, PartialEq, Eq, Structural)]
pub enum RconError {
    /// Opening the TCP connection failed.
    ConnectionError,
    /// A write or read failed at the transport layer; the connection is
    /// unusable afterwards.
    IoError,
    /// Received bytes violate the framing, size or UTF-8 contract.
    MalformedPacket,
    /// An outbound body is too large; rejected before any network activity.
    SizeExceeded,
    /// A reply's id does not match the pending request's id.
    CorrelationError,
    /// The server rejected the credentials (reply id `-1`).
    AuthError,
    /// No complete, correlated reply arrived within the configured duration;
    /// the connection must be invalidated afterwards.
    TimeoutError,
    /// The connection was closed or invalidated; no further I/O is attempted.
    NotConnected,
}

} // verus!
