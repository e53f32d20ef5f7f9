//! The session layer: request construction, response correlation, the auth
//! failure convention, and the timeout/teardown policy.
//!
//! A [`Client`] owns the state of one logical session over one TCP
//! connection and supports one outstanding request at a time. The socket
//! itself lives with the caller: `start_auth` / `start_command` hand back
//! the exact frame to write together with the request id, and
//! `finish_auth` / `finish_command` judge the reply frame that was read
//! back. On a timeout the caller reports [`Client::on_timeout`], which
//! invalidates the session, since a stale reply arriving later would
//! desynchronize all further correlation.

use vstd::prelude::*;
use vstd::utf8::*;

use crate::errors::RconError;
use crate::message::frame_ok;
use crate::message::spec_body_field;
use crate::message::spec_i32_to_le_bytes;
use crate::message::spec_id_field;
use crate::message::Packet;
use crate::message::PacketType;
use crate::MAX_SIZE;
use crate::PACKET_PADDING;

verus! {

/// Default timeout for request operations, in seconds.
pub const DEFAULT_TIMEOUT_SECS: u64 = 60;

/// What `finish_auth` / `finish_command` decide about one reply frame, as a
/// function of the frame alone and the pending request's id.
///
/// `auth` selects the auth failure convention: a reply whose id is `-1`
/// means the server rejected the credentials, whatever the body says, and
/// is judged before correlation. Any other mismatched id is a correlation
/// failure and never a successful result.
pub open spec fn spec_judge_reply(auth: bool, request_id: i32, frame: Seq<u8>) -> Result<
    Seq<char>,
    RconError,
> {
    if !frame_ok(frame) {
        Err(RconError::MalformedPacket)
    } else if auth && spec_id_field(frame) == -1 {
        Err(RconError::AuthError)
    } else if spec_id_field(frame) != request_id {
        Err(RconError::CorrelationError)
    } else {
        Ok(decode_utf8(spec_body_field(frame)))
    }
}

/// The state of one session: whether the connection is still usable, and the
/// timeout applied to request operations.
pub struct Client {
    /// False once the session was disconnected or invalidated; every further
    /// operation then fails with [`RconError::NotConnected`] instead of
    /// attempting I/O.
    pub connected: bool,
    /// Seconds the caller should wait for a complete, correlated reply.
    pub timeout_secs: u64,
}

impl Client {
    /// A fresh session over a just-opened connection, unauthenticated, with
    /// the default timeout.
    pub fn new() -> (c: Client)
        ensures
            c.connected,
            c.timeout_secs == DEFAULT_TIMEOUT_SECS,
    {
        Client { connected: true, timeout_secs: DEFAULT_TIMEOUT_SECS }
    }

    /// Sets the timeout used by subsequent requests, in seconds.
    pub fn set_timout(&mut self, timeout: u64)
        ensures
            final(self).timeout_secs == timeout,
            final(self).connected == old(self).connected,
    {
        self.timeout_secs = timeout;
    }

    /// Marks the session disconnected; all further operations fail with
    /// [`RconError::NotConnected`]. Idempotent.
    pub fn disconnect(&mut self)
        ensures
            !final(self).connected,
            final(self).timeout_secs == old(self).timeout_secs,
    {
        self.connected = false;
    }

    /// Applies the timeout policy: the pending request is abandoned with
    /// [`RconError::TimeoutError`] and the session is invalidated, because a
    /// reply arriving after the deadline cannot be discarded safely.
    pub fn on_timeout(&mut self) -> (e: RconError)
        ensures
            !final(self).connected,
            final(self).timeout_secs == old(self).timeout_secs,
            e == RconError::TimeoutError,
    {
        self.connected = false;
        RconError::TimeoutError
    }

    /// Builds the authentication request for the given password: the exact
    /// frame to write and the id its reply must echo.
    ///
    /// Fails fast with [`RconError::NotConnected`] on an invalidated session
    /// and with [`RconError::SizeExceeded`] on an oversized password, both
    /// before any I/O.
    pub fn start_auth(&self, password: &str) -> (r: Result<(Vec<u8>, i32), RconError>)
        ensures
            !self.connected ==> r == Err::<(Vec<u8>, i32), RconError>(RconError::NotConnected),
            self.connected ==> (r is Ok <==> encode_utf8(password@).len() + PACKET_PADDING
                <= MAX_SIZE),
            self.connected && r is Err ==> r == Err::<(Vec<u8>, i32), RconError>(
                RconError::SizeExceeded,
            ),
            r is Ok ==> request_frame_for(
                r.unwrap().0@,
                r.unwrap().1,
                PacketType::Auth.spec_wire_value(),
                password@,
            ),
    {
        self.start_request(PacketType::Auth, password)
    }

    /// Builds an `ExecCommand` request for the given command string, exactly
    /// as [`Client::start_auth`] does for a password.
    pub fn start_command(&self, command: &str) -> (r: Result<(Vec<u8>, i32), RconError>)
        ensures
            !self.connected ==> r == Err::<(Vec<u8>, i32), RconError>(RconError::NotConnected),
            self.connected ==> (r is Ok <==> encode_utf8(command@).len() + PACKET_PADDING
                <= MAX_SIZE),
            self.connected && r is Err ==> r == Err::<(Vec<u8>, i32), RconError>(
                RconError::SizeExceeded,
            ),
            r is Ok ==> request_frame_for(
                r.unwrap().0@,
                r.unwrap().1,
                PacketType::Execcommand.spec_wire_value(),
                command@,
            ),
    {
        self.start_request(PacketType::Execcommand, command)
    }

    /// Builds one outbound request frame of the given kind.
    fn start_request(&self, p_type: PacketType, body: &str) -> (r: Result<
        (Vec<u8>, i32),
        RconError,
    >)
        ensures
            !self.connected ==> r == Err::<(Vec<u8>, i32), RconError>(RconError::NotConnected),
            self.connected ==> (r is Ok <==> encode_utf8(body@).len() + PACKET_PADDING
                <= MAX_SIZE),
            self.connected && r is Err ==> r == Err::<(Vec<u8>, i32), RconError>(
                RconError::SizeExceeded,
            ),
            r is Ok ==> request_frame_for(
                r.unwrap().0@,
                r.unwrap().1,
                p_type.spec_wire_value(),
                body@,
            ),
    {
        if !self.connected {
            return Err(RconError::NotConnected);
        }
        match Packet::new(p_type, body) {
            Err(e) => Err(e),
            Ok(p) => {
                let bytes = p.encode();
                Ok((bytes, p.id))
            },
        }
    }

    /// Judges the reply to an authentication request: a malformed frame, the
    /// `-1` auth failure convention, then correlation, in that order; only a
    /// frame that passes all three yields the response body.
    pub fn finish_auth(&self, request_id: i32, frame: Vec<u8>) -> (r: Result<String, RconError>)
        ensures
            !self.connected ==> r == Err::<String, RconError>(RconError::NotConnected),
            self.connected ==> match spec_judge_reply(true, request_id, frame@) {
                Ok(body) => r is Ok && r.unwrap()@ == body,
                Err(e) => r == Err::<String, RconError>(e),
            },
    {
        self.finish_request(true, request_id, frame)
    }

    /// Judges the reply to an `ExecCommand` request: a malformed frame, then
    /// correlation; a mismatched id is [`RconError::CorrelationError`] and
    /// never a successful result.
    pub fn finish_command(&self, request_id: i32, frame: Vec<u8>) -> (r: Result<String, RconError>)
        ensures
            !self.connected ==> r == Err::<String, RconError>(RconError::NotConnected),
            self.connected ==> match spec_judge_reply(false, request_id, frame@) {
                Ok(body) => r is Ok && r.unwrap()@ == body,
                Err(e) => r == Err::<String, RconError>(e),
            },
    {
        self.finish_request(false, request_id, frame)
    }

    /// Judges one reply frame against the pending request's id.
    fn finish_request(&self, auth: bool, request_id: i32, frame: Vec<u8>) -> (r: Result<
        String,
        RconError,
    >)
        ensures
            !self.connected ==> r == Err::<String, RconError>(RconError::NotConnected),
            self.connected ==> match spec_judge_reply(auth, request_id, frame@) {
                Ok(body) => r is Ok && r.unwrap()@ == body,
                Err(e) => r == Err::<String, RconError>(e),
            },
    {
        if !self.connected {
            return Err(RconError::NotConnected);
        }
        match Packet::decode(frame) {
            Err(e) => Err(e),
            Ok(p) => {
                if auth && p.id == -1 {
                    Err(RconError::AuthError)
                } else if p.id != request_id {
                    Err(RconError::CorrelationError)
                } else {
                    Ok(p.body)
                }
            },
        }
    }
}

/// True when `frame` is exactly the well-formed wire encoding of a request
/// with the given id, wire tag and body text.
pub open spec fn request_frame_for(frame: Seq<u8>, id: i32, wire_value: i32, body: Seq<char>) -> bool {
    &&& frame.len() == encode_utf8(body).len() + PACKET_PADDING + 4
    &&& frame == spec_i32_to_le_bytes((encode_utf8(body).len() + PACKET_PADDING) as i32)
        + spec_i32_to_le_bytes(id) + spec_i32_to_le_bytes(wire_value) + encode_utf8(body)
        + seq![0u8, 0u8]
}

} // verus!
