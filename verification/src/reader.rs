//! The reader half: owns a scratch buffer that accumulates bytes from the
//! inbound stream until a complete frame can be decoded.
//!
//! Invariant: after a frame is returned, the buffer holds exactly the
//! unconsumed trailing bytes — nothing is consumed twice, nothing dropped.
//! The stream read itself is I/O and belongs to the caller, who hands each
//! read's bytes (empty on end of stream) to [`BufReader::read_step`].

use vstd::prelude::*;
use crate::buffer::{
    buf_advance, buf_extend, buf_get, buf_len, buf_to_vec, buf_view, buf_with_capacity,
    DEFAULT_BUFFER_SIZE,
};
use crate::error::Error;
use crate::frame::{
    frame_channel, frame_corrupted, frame_incomplete, frame_payload_of, frame_rest,
    frame_type_of, ChannelFrame, Frame, FRAME_END, MIN_FRAME_LEN,
};

verus! {

/// What one decode attempt does, as a relation between the buffer's
/// contents before (`b0`), the returned value, and the contents after
/// (`b1`). The outcome is a function of `b0` alone:
/// - too few bytes for the frame at the front: no frame yet, buffer kept
///   byte for byte;
/// - a complete frame whose end-marker byte is wrong: corruption, buffer
///   kept byte for byte;
/// - a complete, well-terminated frame: its channel, type and payload are
///   returned and exactly its bytes leave the front of the buffer.
pub open spec fn decode_post(
    b0: Seq<u8>,
    r: Result<Option<ChannelFrame>, Error>,
    b1: Seq<u8>,
) -> bool {
    if frame_incomplete(b0) {
        b1 == b0 && (r matches Ok(None))
    } else if frame_corrupted(b0) {
        b1 == b0 && (r matches Err(Error::Corrupted))
    } else {
        match r {
            Ok(Some((channel, f))) => {
                &&& b1 == frame_rest(b0)
                &&& channel == frame_channel(b0)
                &&& f.frame_type == frame_type_of(b0)
                &&& f.payload@ == frame_payload_of(b0)
            },
            _ => false,
        }
    }
}

/// The read direction's buffer. Its view is the bytes received from the
/// stream and not yet consumed by a decoded frame, front to back.
pub struct BufReader {
    buffer: bytes::BytesMut,
}

impl View for BufReader {
    type V = Seq<u8>;

    closed spec fn view(&self) -> Seq<u8> {
        buf_view(self.buffer)
    }
}

impl BufReader {
    /// A fresh reader with an empty buffer.
    pub fn new() -> (r: Self)
        ensures
            r@ == Seq::<u8>::empty(),
    {
        BufReader { buffer: buf_with_capacity(DEFAULT_BUFFER_SIZE) }
    }

    /// How many unconsumed bytes are buffered.
    pub fn len(&self) -> (r: usize)
        ensures
            r == self@.len(),
    {
        buf_len(&self.buffer)
    }

    /// Whether no partial frame is pending.
    pub fn is_empty(&self) -> (r: bool)
        ensures
            r == (self@.len() == 0),
    {
        buf_len(&self.buffer) == 0
    }

    /// A copy of the unconsumed buffered bytes.
    pub fn buffered(&self) -> (r: Vec<u8>)
        ensures
            r@ == self@,
    {
        buf_to_vec(&self.buffer)
    }

    /// Append the bytes of one stream read to the back of the buffer.
    pub fn feed(&mut self, data: &Vec<u8>)
        ensures
            final(self)@ == old(self)@ + data@,
    {
        buf_extend(&mut self.buffer, data);
    }

    /// Try to decode one frame from the buffered bytes; see [`decode_post`]
    /// for exactly what is returned and consumed in each case.
    pub fn decode(&mut self) -> (r: Result<Option<ChannelFrame>, Error>)
        ensures
            decode_post(old(self)@, r, final(self)@),
    {
        let len = buf_len(&self.buffer);
        if len < MIN_FRAME_LEN {
            return Ok(None);
        }
        let b3 = buf_get(&self.buffer, 3);
        let b4 = buf_get(&self.buffer, 4);
        let b5 = buf_get(&self.buffer, 5);
        let b6 = buf_get(&self.buffer, 6);
        let n = (((b3 as u32) << 24) | ((b4 as u32) << 16) | ((b5 as u32) << 8) | (b6 as u32))
            as usize;
        if len - MIN_FRAME_LEN < n {
            return Ok(None);
        }
        let total = MIN_FRAME_LEN + n;
        if buf_get(&self.buffer, total - 1) != FRAME_END {
            return Err(Error::Corrupted);
        }

        let frame_type = buf_get(&self.buffer, 0);
        let c1 = buf_get(&self.buffer, 1);
        let c2 = buf_get(&self.buffer, 2);
        let channel = ((c1 as u16) << 8) | (c2 as u16);

        let ghost b0 = buf_view(self.buffer);
        let mut payload: Vec<u8> = Vec::new();
        let mut i: usize = 0;
        while i < n
            invariant
                i <= n,
                n <= usize::MAX - MIN_FRAME_LEN,
                buf_view(self.buffer) == b0,
                MIN_FRAME_LEN + n <= b0.len(),
                payload@ == b0.subrange(7, 7 + i as int),
            decreases n - i,
        {
            payload.push(buf_get(&self.buffer, 7 + i));
            i += 1;
        }

        buf_advance(&mut self.buffer, total);

        proof {
            assert(payload@ == frame_payload_of(b0));
            assert(buf_view(self.buffer) == frame_rest(b0));
        }
        Ok(Some((channel, Frame { frame_type, payload })))
    }

    /// One step of the caller's read loop, given the bytes of one stream
    /// read. An empty read means the stream ended, and is classified: with
    /// nothing buffered it is a clean close, with a partial frame pending
    /// it is an interruption that lost data mid-frame. A non-empty read is
    /// appended to the buffer and one decode is attempted on the whole.
    pub fn read_step(&mut self, data: &Vec<u8>) -> (r: Result<Option<ChannelFrame>, Error>)
        ensures
            data@.len() == 0 && old(self)@.len() == 0 ==> (r matches Err(Error::Closed))
                && final(self)@ == old(self)@,
            data@.len() == 0 && old(self)@.len() != 0 ==> (r matches Err(Error::Interrupted))
                && final(self)@ == old(self)@,
            data@.len() != 0 ==> decode_post(old(self)@ + data@, r, final(self)@),
    {
        if data.len() == 0 {
            if buf_len(&self.buffer) == 0 {
                Err(Error::Closed)
            } else {
                Err(Error::Interrupted)
            }
        } else {
            self.feed(data);
            self.decode()
        }
    }
}

/// The buffer contents after feeding each of `parts` in order, starting
/// from `base`.
pub open spec fn fed(base: Seq<u8>, parts: Seq<Seq<u8>>) -> Seq<u8>
    decreases parts.len(),
{
    if parts.len() == 0 {
        base
    } else {
        fed(base + parts[0], parts.skip(1))
    }
}

/// All of `parts` laid end to end.
pub open spec fn concat_of(parts: Seq<Seq<u8>>) -> Seq<u8>
    decreases parts.len(),
{
    if parts.len() == 0 {
        Seq::empty()
    } else {
        parts[0] + concat_of(parts.skip(1))
    }
}

/// Fragmentation equivalence, first half: delivering a frame's bytes to the
/// reader split across any number of reads of any sizes leaves the buffer
/// exactly as one read of their concatenation would.
pub proof fn lemma_fragmentation(base: Seq<u8>, parts: Seq<Seq<u8>>)
    ensures
        fed(base, parts) == base + concat_of(parts),
    decreases parts.len(),
{
    if parts.len() == 0 {
        assert(fed(base, parts) =~= base + concat_of(parts));
    } else {
        lemma_fragmentation(base + parts[0], parts.skip(1));
        assert((base + parts[0]) + concat_of(parts.skip(1)) =~= base + concat_of(parts));
    }
}

/// Fragmentation equivalence, second half: the decode outcome after a
/// fragmented delivery is the very outcome after delivering all the bytes
/// in one read, because [`decode_post`] speaks of nothing but the buffer's
/// contents.
pub proof fn lemma_fragmentation_decode(
    parts: Seq<Seq<u8>>,
    r: Result<Option<ChannelFrame>, Error>,
    b1: Seq<u8>,
)
    ensures
        decode_post(fed(Seq::empty(), parts), r, b1) == decode_post(concat_of(parts), r, b1),
{
    lemma_fragmentation(Seq::empty(), parts);
    assert(Seq::<u8>::empty() + concat_of(parts) =~= concat_of(parts));
}

} // verus!
