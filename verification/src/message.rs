//! The packet codec: the logical packet type, its exact wire layout, and the
//! serializer/parser pair together with the round-trip proof.
//!
//! Wire layout of one frame (all integers signed 32-bit little-endian):
//! `size` (4 bytes, `= len(body) + 10`), `id` (4 bytes), `type` (4 bytes),
//! the body's UTF-8 bytes, then two zero bytes. The `size` field does not
//! count itself, so a whole frame is `size + 4` bytes long.

use vstd::bytes::*;
use vstd::prelude::*;
use vstd::slice::*;
use vstd::utf8::*;

use crate::errors::RconError;
use crate::MAX_SIZE;
use crate::PACKET_PADDING;

verus! {

/// The logical kinds of packet the protocol knows.
///
/// `AuthResponse` and `Execcommand` share wire value 2: the protocol tells
/// them apart by context (request vs. reply), not by a distinct tag.
#[derive(Clone, Copy, Debug, PartialEq, Eq, Structural)]
pub enum PacketType {
    Auth,
    ResponseValue,
    AuthResponse,
    Execcommand,
}

impl PacketType {
    /// The numeric tag this kind carries on the wire.
    pub open spec fn spec_wire_value(self) -> i32 {
        match self {
            PacketType::Auth => 3,
            PacketType::ResponseValue => 0,
            PacketType::AuthResponse => 2,
            PacketType::Execcommand => 2,
        }
    }

    /// Converts the logical kind to its wire tag.
    pub fn wire_value(self) -> (v: i32)
        ensures
            v == self.spec_wire_value(),
    {
        match self {
            PacketType::Auth => 3,
            PacketType::ResponseValue => 0,
            PacketType::AuthResponse => 2,
            PacketType::Execcommand => 2,
        }
    }
}

/// One logical packet, request or reply.
#[derive(Debug)]
pub struct Packet {
    /// Declared payload length: the body's byte length plus [`PACKET_PADDING`].
    pub size: i32,
    /// Request/response identifier, matched by the session layer.
    pub id: i32,
    /// Numeric wire tag, one of the values of [`PacketType`].
    pub packet_type: i32,
    /// UTF-8 text payload: a command string or response text.
    pub body: String,
}

/// A signed 32-bit integer as its 4 little-endian bytes.
pub open spec fn spec_i32_to_le_bytes(x: i32) -> Seq<u8> {
    spec_u32_to_le_bytes(x as u32)
}

/// The signed 32-bit integer read from 4 little-endian bytes.
pub open spec fn spec_i32_from_le_bytes(s: Seq<u8>) -> i32
    recommends
        s.len() == 4,
{
    spec_u32_from_le_bytes(s) as i32
}

/// The `size` field declared in a frame's first four bytes.
pub open spec fn spec_size_field(bytes: Seq<u8>) -> i32
    recommends
        bytes.len() >= 4,
{
    spec_i32_from_le_bytes(bytes.subrange(0, 4))
}

/// The `id` field of a frame.
pub open spec fn spec_id_field(bytes: Seq<u8>) -> i32
    recommends
        bytes.len() >= 8,
{
    spec_i32_from_le_bytes(bytes.subrange(4, 8))
}

/// The `type` field of a frame.
pub open spec fn spec_type_field(bytes: Seq<u8>) -> i32
    recommends
        bytes.len() >= 12,
{
    spec_i32_from_le_bytes(bytes.subrange(8, 12))
}

/// The body bytes of a frame: everything between the 12-byte header and the
/// 2-byte terminator.
pub open spec fn spec_body_field(bytes: Seq<u8>) -> Seq<u8>
    recommends
        bytes.len() >= 14,
{
    bytes.subrange(12, bytes.len() - 2)
}

/// True when a byte sequence is one well-formed frame: it is long enough for
/// the header and terminator, its declared `size` is within the protocol's
/// bounds and matches the actual length, and its body bytes are valid UTF-8.
pub open spec fn frame_ok(bytes: Seq<u8>) -> bool {
    &&& bytes.len() >= 12
    &&& PACKET_PADDING <= spec_size_field(bytes) <= MAX_SIZE
    &&& spec_size_field(bytes) + 4 == bytes.len()
    &&& valid_utf8(spec_body_field(bytes))
}

/// True when `p` carries exactly the fields declared in `bytes`.
pub open spec fn decoded_from(p: Packet, bytes: Seq<u8>) -> bool
    recommends
        bytes.len() >= 14,
{
    &&& p.size == spec_size_field(bytes)
    &&& p.id == spec_id_field(bytes)
    &&& p.packet_type == spec_type_field(bytes)
    &&& p.body@ == decode_utf8(spec_body_field(bytes))
}

impl Packet {
    /// Well-formedness: the declared size counts the body's UTF-8 bytes plus
    /// the fixed padding, and stays within the protocol's hard cap.
    pub open spec fn wf(self) -> bool {
        &&& self.size == encode_utf8(self.body@).len() + PACKET_PADDING
        &&& self.size <= MAX_SIZE
    }

    /// The exact byte sequence this packet takes on the wire.
    pub open spec fn spec_encode(self) -> Seq<u8> {
        spec_i32_to_le_bytes(self.size) + spec_i32_to_le_bytes(self.id)
            + spec_i32_to_le_bytes(self.packet_type) + encode_utf8(self.body@) + seq![0u8, 0u8]
    }

    /// Constructs a packet with a caller-chosen identifier.
    ///
    /// Succeeds exactly when the body's byte length fits under the protocol
    /// cap (`len(body) + 10 <= 4096`); a larger body is rejected with
    /// [`RconError::SizeExceeded`] before any other work.
    pub fn with_id(p_type: PacketType, body: &str, id: i32) -> (r: Result<Packet, RconError>)
        ensures
            r is Ok <==> encode_utf8(body@).len() + PACKET_PADDING <= MAX_SIZE,
            r is Err ==> r == Err::<Packet, RconError>(RconError::SizeExceeded),
            r is Ok ==> {
                let p = r.unwrap();
                &&& p.wf()
                &&& p.id == id
                &&& p.packet_type == p_type.spec_wire_value()
                &&& p.body@ == body@
                &&& p.size == encode_utf8(body@).len() + PACKET_PADDING
            },
    {
        let n = body.as_bytes().len();
        if n > (MAX_SIZE - PACKET_PADDING) as usize {
            return Err(RconError::SizeExceeded);
        }
        let size: i32 = n as i32 + PACKET_PADDING;
        Ok(Packet { size, id, packet_type: p_type.wire_value(), body: body.to_owned() })
    }

    /// Constructs a packet to send to the server, with a pseudo-random
    /// identifier so the reply can be told apart from unrelated traffic.
    ///
    /// Succeeds exactly when [`Packet::with_id`] would; nothing is promised
    /// of the identifier itself.
    pub fn new(p_type: PacketType, body: &str) -> (r: Result<Packet, RconError>)
        ensures
            r is Ok <==> encode_utf8(body@).len() + PACKET_PADDING <= MAX_SIZE,
            r is Err ==> r == Err::<Packet, RconError>(RconError::SizeExceeded),
            r is Ok ==> {
                let p = r.unwrap();
                &&& p.wf()
                &&& p.packet_type == p_type.spec_wire_value()
                &&& p.body@ == body@
                &&& p.size == encode_utf8(body@).len() + PACKET_PADDING
            },
    {
        let id = random_id();
        Packet::with_id(p_type, body, id)
    }

    /// Serializes the packet into the exact frame layout the protocol
    /// expects: `size`, `id`, `type` as little-endian 32-bit integers, the
    /// body's raw UTF-8 bytes, then two zero bytes.
    pub fn encode(&self) -> (r: Vec<u8>)
        ensures
            r@ == self.spec_encode(),
            self.wf() ==> r@.len() == self.size + 4,
    {
        let mut bytes: Vec<u8> = Vec::new();
        let mut field = u32_to_le_bytes(self.size as u32);
        bytes.append(&mut field);
        let mut field = u32_to_le_bytes(self.id as u32);
        bytes.append(&mut field);
        let mut field = u32_to_le_bytes(self.packet_type as u32);
        bytes.append(&mut field);
        let body_bytes = self.body.as_str().as_bytes();
        let mut i: usize = 0;
        while i < body_bytes.len()
            invariant
                i <= body_bytes@.len(),
                body_bytes@ == encode_utf8(self.body@),
                bytes@ == spec_i32_to_le_bytes(self.size) + spec_i32_to_le_bytes(self.id)
                    + spec_i32_to_le_bytes(self.packet_type) + body_bytes@.subrange(0, i as int),
            decreases body_bytes@.len() - i,
        {
            bytes.push(*slice_index_get(body_bytes, i));
            i = i + 1;
            proof {
                assert(body_bytes@.subrange(0, i as int) =~= body_bytes@.subrange(
                    0,
                    i - 1,
                ).push(body_bytes@[i - 1]));
            }
        }
        bytes.push(0);
        bytes.push(0);
        proof {
            assert(body_bytes@.subrange(0, body_bytes@.len() as int) =~= body_bytes@);
            assert(bytes@ =~= self.spec_encode());
        }
        bytes
    }

    /// Parses one frame back into a packet, validating every structural
    /// constraint: at least a full header must be present, the declared
    /// `size` must be within bounds and must match the frame's actual
    /// length, and the body bytes must be valid UTF-8. Any violation is
    /// [`RconError::MalformedPacket`]; every conversion is checked.
    pub fn decode(bytes: Vec<u8>) -> (r: Result<Packet, RconError>)
        ensures
            r is Ok <==> frame_ok(bytes@),
            r is Err ==> r == Err::<Packet, RconError>(RconError::MalformedPacket),
            r is Ok ==> decoded_from(r.unwrap(), bytes@) && r.unwrap().wf(),
    {
        if bytes.len() < 12 {
            return Err(RconError::MalformedPacket);
        }
        let size = u32_from_le_bytes(slice_subrange(bytes.as_slice(), 0, 4)) as i32;
        if size < PACKET_PADDING || size > MAX_SIZE {
            return Err(RconError::MalformedPacket);
        }
        if bytes.len() != (size as usize) + 4 {
            return Err(RconError::MalformedPacket);
        }
        let id = u32_from_le_bytes(slice_subrange(bytes.as_slice(), 4, 8)) as i32;
        let packet_type = u32_from_le_bytes(slice_subrange(bytes.as_slice(), 8, 12)) as i32;
        let body_bytes = slice_to_vec(slice_subrange(bytes.as_slice(), 12, bytes.len() - 2));
        match string_from_utf8(body_bytes) {
            None => Err(RconError::MalformedPacket),
            Some(body) => {
                proof {
                    vstd::utf8::decode_utf8_encode_utf8(spec_body_field(bytes@));
                }
                Ok(Packet { size, id, packet_type, body })
            },
        }
    }
}

/// Proof that a well-formed packet's encoding is a well-formed frame whose
/// declared fields are exactly the packet's: the decoder accepts it.
pub proof fn lemma_encode_frame_ok(p: Packet)
    requires
        p.wf(),
    ensures
        frame_ok(p.spec_encode()),
        spec_size_field(p.spec_encode()) == p.size,
        spec_id_field(p.spec_encode()) == p.id,
        spec_type_field(p.spec_encode()) == p.packet_type,
        decode_utf8(spec_body_field(p.spec_encode())) == p.body@,
{
    let bytes = p.spec_encode();
    lemma_auto_spec_u32_to_from_le_bytes();
    assert(bytes.subrange(0, 4) =~= spec_i32_to_le_bytes(p.size));
    assert(bytes.subrange(4, 8) =~= spec_i32_to_le_bytes(p.id));
    assert(bytes.subrange(8, 12) =~= spec_i32_to_le_bytes(p.packet_type));
    let size = p.size;
    let id = p.id;
    let packet_type = p.packet_type;
    assert((size as u32) as i32 == size) by (bit_vector);
    assert((id as u32) as i32 == id) by (bit_vector);
    assert((packet_type as u32) as i32 == packet_type) by (bit_vector);
    assert(spec_body_field(bytes) =~= encode_utf8(p.body@));
    encode_utf8_valid_utf8(p.body@);
    encode_utf8_decode_utf8(p.body@);
}

/// Proof that the codec round-trips: any packet decoded from a well-formed
/// packet's encoding carries the same size, id, type and body text, and the
/// size invariant `size == len(body) + 10` holds of it again.
pub proof fn lemma_encode_decode(p: Packet, q: Packet)
    requires
        p.wf(),
        decoded_from(q, p.spec_encode()),
    ensures
        frame_ok(p.spec_encode()),
        q.size == p.size,
        q.id == p.id,
        q.packet_type == p.packet_type,
        q.body@ == p.body@,
        q.wf(),
{
    lemma_encode_frame_ok(p);
}

/// Relies on `rand`'s thread-local generator (`rand::random`) for a
/// pseudo-random request identifier. Nothing is promised of the value.
#[verifier::external_body]
fn random_id() -> i32 {
    rand::random::<i32>()
}

/// Relies on `String::from_utf8`: it returns `Ok` exactly when the bytes are
/// a valid UTF-8 encoding, and the returned string contains precisely those
/// bytes, i.e. the character sequence they decode to.
#[verifier::external_body]
fn string_from_utf8(bytes: Vec<u8>) -> (r: Option<String>)
    ensures
        r is Some <==> valid_utf8(bytes@),
        r is Some ==> r.unwrap()@ == decode_utf8(bytes@),
{
    String::from_utf8(bytes).ok()
}

} // verus!
