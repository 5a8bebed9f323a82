//! The writer half: owns a scratch buffer into which raw bytes or whole
//! frames are staged before the caller flushes them to its outbound stream.
//!
//! Invariant, taken from the length-patch step: every write operation starts
//! with an empty buffer, so the length field's position is a fixed offset
//! from the buffer's start. Staging and draining are verified here; the
//! flush itself is stream I/O and belongs to the caller, who hands the
//! staged bytes to the stream and drains the buffer only when the flush
//! succeeded, leaving it intact on failure.

use vstd::prelude::*;
use crate::buffer::{
    buf_advance, buf_extend, buf_len, buf_set, buf_to_vec, buf_view, buf_with_capacity,
    DEFAULT_BUFFER_SIZE,
};
use crate::frame::{frame_bytes, Frame, FRAME_END};

verus! {

/// The write direction's buffer. Its view is the staged bytes, front to
/// back: what the next flush would put on the wire.
pub struct BufWriter {
    buffer: bytes::BytesMut,
}

impl View for BufWriter {
    type V = Seq<u8>;

    closed spec fn view(&self) -> Seq<u8> {
        buf_view(self.buffer)
    }
}

impl BufWriter {
    /// A fresh writer with an empty buffer.
    pub fn new() -> (r: Self)
        ensures
            r@ == Seq::<u8>::empty(),
    {
        BufWriter { buffer: buf_with_capacity(DEFAULT_BUFFER_SIZE) }
    }

    /// How many bytes are staged and not yet drained.
    pub fn len(&self) -> (r: usize)
        ensures
            r == self@.len(),
    {
        buf_len(&self.buffer)
    }

    /// Whether the buffer is fully drained, as every write operation
    /// requires at its start.
    pub fn is_empty(&self) -> (r: bool)
        ensures
            r == (self@.len() == 0),
    {
        buf_len(&self.buffer) == 0
    }

    /// Stage raw, unframed bytes (the protocol's handshake prelude): the
    /// buffer afterwards holds exactly those bytes.
    pub fn stage_bytes(&mut self, data: &Vec<u8>)
        requires
            old(self)@.len() == 0,
        ensures
            final(self)@ == data@,
    {
        buf_extend(&mut self.buffer, data);
        proof {
            assert(buf_view(self.buffer) =~= data@);
        }
    }

    /// Stage one frame for the given channel: write the 7-byte header with
    /// a zero placeholder in the length field, append the payload, patch
    /// the length field in place at offset 3 with the payload's actual
    /// big-endian length, and append the end marker. The buffer afterwards
    /// holds exactly the frame's wire bytes.
    pub fn stage_frame(&mut self, channel: u16, frame: &Frame)
        requires
            old(self)@.len() == 0,
            frame.payload@.len() <= u32::MAX,
        ensures
            final(self)@ == frame_bytes(channel, frame.frame_type, frame.payload@),
    {
        let mut header: Vec<u8> = Vec::new();
        header.push(frame.frame_type);
        header.push(((channel >> 8) & 0xff) as u8);
        header.push((channel & 0xff) as u8);
        header.push(0);
        header.push(0);
        header.push(0);
        header.push(0);
        buf_extend(&mut self.buffer, &header);

        buf_extend(&mut self.buffer, &frame.payload);

        let n = frame.payload.len() as u32;
        buf_set(&mut self.buffer, 3, ((n >> 24) & 0xff) as u8);
        buf_set(&mut self.buffer, 4, ((n >> 16) & 0xff) as u8);
        buf_set(&mut self.buffer, 5, ((n >> 8) & 0xff) as u8);
        buf_set(&mut self.buffer, 6, (n & 0xff) as u8);

        let mut marker: Vec<u8> = Vec::new();
        marker.push(FRAME_END);
        buf_extend(&mut self.buffer, &marker);

        proof {
            assert(buf_view(self.buffer) =~= frame_bytes(
                channel,
                frame.frame_type,
                frame.payload@,
            ));
        }
    }

    /// A copy of the staged bytes, for the caller to flush to its stream.
    pub fn staged(&self) -> (r: Vec<u8>)
        ensures
            r@ == self@,
    {
        buf_to_vec(&self.buffer)
    }

    /// Discard everything staged, once the flush succeeded; returns how
    /// many bytes were drained. A caller whose flush failed does not drain,
    /// so the buffer keeps the unsent bytes.
    pub fn drain_all(&mut self) -> (r: usize)
        ensures
            final(self)@ == Seq::<u8>::empty(),
            r == old(self)@.len(),
    {
        let len = buf_len(&self.buffer);
        buf_advance(&mut self.buffer, len);
        proof {
            assert(buf_view(self.buffer) =~= Seq::<u8>::empty());
        }
        len
    }
}

} // verus!
