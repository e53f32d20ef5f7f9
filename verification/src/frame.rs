//! Frame assembly over a chunked byte stream.
//!
//! TCP delivers bytes with no inherent framing: one read may return zero,
//! part of, or more than one frame's worth of bytes. The [`FrameAssembler`]
//! gathers whatever chunks arrive until exactly one complete frame is
//! buffered: first the 4-byte `size` field, then the remaining `size` bytes.
//! The caller loops, asking [`FrameAssembler::progress`] how many bytes are
//! still owed, until the frame is ready or the declared size turns out to be
//! out of the protocol's bounds.

use vstd::prelude::*;
use vstd::slice::*;

use crate::errors::RconError;
use crate::message::spec_size_field;
use crate::MAX_SIZE;
use crate::PACKET_PADDING;

verus! {

/// What the assembler still needs before one frame is complete.
#[derive(Clone, Copy, Debug, PartialEq, Eq, Structural)]
pub enum FrameProgress {
    /// At least this many more bytes are required.
    Need(usize),
    /// Exactly one complete frame is buffered.
    Ready,
}

/// Accumulates byte chunks until they form one complete frame.
pub struct FrameAssembler {
    /// The bytes received so far, in arrival order.
    pub buf: Vec<u8>,
}

impl FrameAssembler {
    /// The declared frame size once the 4-byte header is in.
    pub open spec fn spec_declared(self) -> i32
        recommends
            self.buf@.len() >= 4,
    {
        spec_size_field(self.buf@)
    }

    /// True when the declared size is within the protocol's bounds.
    pub open spec fn spec_header_ok(self) -> bool
        recommends
            self.buf@.len() >= 4,
    {
        PACKET_PADDING <= self.spec_declared() <= MAX_SIZE
    }

    /// True when the buffered bytes cannot be a prefix of any frame this
    /// protocol allows: the declared size is out of bounds, or more bytes
    /// than one whole frame have arrived.
    pub open spec fn spec_bad(self) -> bool {
        self.buf@.len() >= 4 && (!self.spec_header_ok() || self.buf@.len()
            > self.spec_declared() + 4)
    }

    /// True when the buffer holds exactly one complete frame.
    pub open spec fn spec_complete(self) -> bool {
        self.buf@.len() >= 4 && self.spec_header_ok() && self.buf@.len() == self.spec_declared()
            + 4
    }

    /// How many bytes are still owed: the rest of the `size` field, or the
    /// rest of the declared frame.
    pub open spec fn spec_needed(self) -> int
        recommends
            !self.spec_bad(),
            !self.spec_complete(),
    {
        if self.buf@.len() < 4 {
            4 - self.buf@.len()
        } else {
            self.spec_declared() + 4 - self.buf@.len()
        }
    }

    /// Starts with an empty buffer.
    pub fn new() -> (a: FrameAssembler)
        ensures
            a.buf@ == Seq::<u8>::empty(),
    {
        FrameAssembler { buf: Vec::new() }
    }

    /// Appends one received chunk, of whatever length the transport
    /// delivered, to the buffer.
    pub fn push(&mut self, chunk: &[u8])
        ensures
            final(self).buf@ == old(self).buf@ + chunk@,
    {
        let mut i: usize = 0;
        while i < chunk.len()
            invariant
                i <= chunk@.len(),
                self.buf@ == old(self).buf@ + chunk@.subrange(0, i as int),
            decreases chunk@.len() - i,
        {
            self.buf.push(*slice_index_get(chunk, i));
            i = i + 1;
            proof {
                assert(chunk@.subrange(0, i as int) =~= chunk@.subrange(0, i - 1).push(
                    chunk@[i - 1],
                ));
            }
        }
        proof {
            assert(chunk@.subrange(0, chunk@.len() as int) =~= chunk@);
        }
    }

    /// Reports whether one frame is complete, how many bytes are still owed,
    /// or that the declared size violates the protocol
    /// ([`RconError::MalformedPacket`]).
    pub fn progress(&self) -> (r: Result<FrameProgress, RconError>)
        ensures
            self.spec_bad() ==> r == Err::<FrameProgress, RconError>(RconError::MalformedPacket),
            self.spec_complete() ==> r == Ok::<FrameProgress, RconError>(FrameProgress::Ready),
            !self.spec_bad() && !self.spec_complete() ==> r == Ok::<FrameProgress, RconError>(
                FrameProgress::Need(self.spec_needed() as usize),
            ),
    {
        let len = self.buf.len();
        if len < 4 {
            return Ok(FrameProgress::Need(4 - len));
        }
        let declared = vstd::bytes::u32_from_le_bytes(slice_subrange(self.buf.as_slice(), 0, 4))
            as i32;
        if declared < PACKET_PADDING || declared > MAX_SIZE {
            return Err(RconError::MalformedPacket);
        }
        let total = (declared as usize) + 4;
        if len > total {
            Err(RconError::MalformedPacket)
        } else if len == total {
            Ok(FrameProgress::Ready)
        } else {
            Ok(FrameProgress::Need(total - len))
        }
    }

    /// Hands out the completed frame's bytes.
    pub fn take_frame(self) -> (r: Vec<u8>)
        requires
            self.spec_complete(),
        ensures
            r@ == self.buf@,
            r@.len() >= 14,
    {
        self.buf
    }
}

} // verus!
