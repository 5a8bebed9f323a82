//! The connection: one reader half and one writer half, owned as a pair.
//!
//! The pair offers the same operations as the halves, so a caller can work
//! with one value before deciding to split. Splitting consumes the pair and
//! hands out the two halves unchanged; from then on each half is a separate
//! owned value, so the type system itself keeps the two directions
//! independent: no operation on one half can touch, or wait on, the other.

use vstd::prelude::*;
use crate::error::Error;
use crate::frame::{frame_bytes, ChannelFrame, Frame};
use crate::reader::{decode_post, BufReader};
use crate::writer::BufWriter;

verus! {

/// An owned (reader, writer) pair. Its view is the pair of the halves'
/// buffer contents: `(read buffer, write buffer)`.
pub struct SplitConnection {
    reader: BufReader,
    writer: BufWriter,
}

impl View for SplitConnection {
    type V = (Seq<u8>, Seq<u8>);

    closed spec fn view(&self) -> (Seq<u8>, Seq<u8>) {
        (self.reader@, self.writer@)
    }
}

impl SplitConnection {
    /// A fresh pair with both buffers empty, ready to be driven by a caller
    /// that has connected a stream.
    pub fn new() -> (r: Self)
        ensures
            r@.0 == Seq::<u8>::empty(),
            r@.1 == Seq::<u8>::empty(),
    {
        SplitConnection { reader: BufReader::new(), writer: BufWriter::new() }
    }

    /// Decompose the pair into its two independently owned halves, each
    /// with its buffer kept byte for byte. The pair itself is consumed; the
    /// halves are the sole owners of their direction from here on.
    pub fn into_split(self) -> (r: (BufReader, BufWriter))
        ensures
            r.0@ == self@.0,
            r.1@ == self@.1,
    {
        (self.reader, self.writer)
    }

    /// Stage raw handshake bytes on the write side; the read side is
    /// untouched.
    pub fn stage_bytes(&mut self, data: &Vec<u8>)
        requires
            old(self)@.1.len() == 0,
        ensures
            final(self)@.1 == data@,
            final(self)@.0 == old(self)@.0,
    {
        self.writer.stage_bytes(data);
    }

    /// Stage one frame on the write side; the read side is untouched.
    pub fn stage_frame(&mut self, channel: u16, frame: &Frame)
        requires
            old(self)@.1.len() == 0,
            frame.payload@.len() <= u32::MAX,
        ensures
            final(self)@.1 == frame_bytes(channel, frame.frame_type, frame.payload@),
            final(self)@.0 == old(self)@.0,
    {
        self.writer.stage_frame(channel, frame);
    }

    /// A copy of the write side's staged bytes, for the caller to flush.
    pub fn staged(&self) -> (r: Vec<u8>)
        ensures
            r@ == self@.1,
    {
        self.writer.staged()
    }

    /// Drain the write side once its flush succeeded; the read side is
    /// untouched.
    pub fn drain_all(&mut self) -> (r: usize)
        ensures
            final(self)@.1 == Seq::<u8>::empty(),
            r == old(self)@.1.len(),
            final(self)@.0 == old(self)@.0,
    {
        self.writer.drain_all()
    }

    /// Try to decode one frame from the read side's buffered bytes; the
    /// write side is untouched.
    pub fn decode(&mut self) -> (r: Result<Option<ChannelFrame>, Error>)
        ensures
            decode_post(old(self)@.0, r, final(self)@.0),
            final(self)@.1 == old(self)@.1,
    {
        self.reader.decode()
    }

    /// One step of the read loop on the read side, as
    /// [`BufReader::read_step`]; the write side is untouched.
    pub fn read_step(&mut self, data: &Vec<u8>) -> (r: Result<Option<ChannelFrame>, Error>)
        ensures
            data@.len() == 0 && old(self)@.0.len() == 0 ==> (r matches Err(Error::Closed))
                && final(self)@.0 == old(self)@.0,
            data@.len() == 0 && old(self)@.0.len() != 0 ==> (r matches Err(Error::Interrupted))
                && final(self)@.0 == old(self)@.0,
            data@.len() != 0 ==> decode_post(old(self)@.0 + data@, r, final(self)@.0),
            final(self)@.1 == old(self)@.1,
    {
        self.reader.read_step(data)
    }
}

} // verus!
