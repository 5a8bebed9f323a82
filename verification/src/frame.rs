//! The wire format: one frame is a 7-byte header (type, channel, payload
//! length), the payload bytes, and a fixed end-marker byte.
//!
//! ```text
//! offset 0      : frame type         (1 byte)
//! offset 1..3   : channel identifier (2 bytes, big-endian)
//! offset 3..7   : payload length N   (4 bytes, big-endian)
//! offset 7..7+N : payload bytes
//! offset 7+N    : end marker         (1 byte, FRAME_END)
//! ```
//!
//! The payload's own encoding is the business of an external codec; this
//! layer carries it as plain bytes and only delimits it.

use vstd::prelude::*;

verus! {

/// Sentinel byte that terminates every frame.
pub const FRAME_END: u8 = 0xCE;

/// Length of the fixed frame header: type, channel, payload length.
pub const FRAME_HEADER_LEN: usize = 7;

/// Smallest possible frame: the header plus the end marker, empty payload.
pub const MIN_FRAME_LEN: usize = 8;

/// One frame as this layer sees it: its type byte and its payload bytes.
/// What the payload bytes mean is the external codec's business.
#[derive(Debug)]
pub struct Frame {
    pub frame_type: u8,
    pub payload: Vec<u8>,
}

/// A channel identifier paired with the frame that arrived on it: the unit
/// returned by a successful read and accepted by a frame write.
pub type ChannelFrame = (u16, Frame);

/// Big-endian bytes of a 16-bit value, most significant first.
pub open spec fn be_u16(x: u16) -> Seq<u8> {
    seq![((x >> 8) & 0xff) as u8, (x & 0xff) as u8]
}

/// Big-endian bytes of a 32-bit value, most significant first.
pub open spec fn be_u32(x: u32) -> Seq<u8> {
    seq![
        ((x >> 24) & 0xff) as u8,
        ((x >> 16) & 0xff) as u8,
        ((x >> 8) & 0xff) as u8,
        (x & 0xff) as u8,
    ]
}

/// The 16-bit value whose big-endian bytes are `b0, b1`.
pub open spec fn u16_of_be(b0: u8, b1: u8) -> u16 {
    ((b0 as u16) << 8) | (b1 as u16)
}

/// The 32-bit value whose big-endian bytes are `b0, b1, b2, b3`.
pub open spec fn u32_of_be(b0: u8, b1: u8, b2: u8, b3: u8) -> u32 {
    ((b0 as u32) << 24) | ((b1 as u32) << 16) | ((b2 as u32) << 8) | (b3 as u32)
}

/// The exact bytes that one frame with the given type, channel and payload
/// occupies on the wire.
pub open spec fn frame_bytes(channel: u16, frame_type: u8, payload: Seq<u8>) -> Seq<u8> {
    seq![frame_type] + be_u16(channel) + be_u32(payload.len() as u32) + payload + seq![FRAME_END]
}

/// The payload length field read out of a buffer that starts with a frame
/// header.
pub open spec fn declared_payload_len(bytes: Seq<u8>) -> int
    recommends
        bytes.len() >= FRAME_HEADER_LEN,
{
    u32_of_be(bytes[3], bytes[4], bytes[5], bytes[6]) as int
}

/// How many bytes the frame at the front of the buffer occupies in all:
/// header, declared payload, end marker.
pub open spec fn frame_total_len(bytes: Seq<u8>) -> int {
    MIN_FRAME_LEN + declared_payload_len(bytes)
}

/// The buffer holds fewer bytes than the frame at its front needs.
pub open spec fn frame_incomplete(bytes: Seq<u8>) -> bool {
    bytes.len() < MIN_FRAME_LEN || bytes.len() < frame_total_len(bytes)
}

/// The frame at the front is all there but structurally invalid: the byte
/// where its end marker belongs is not `FRAME_END`.
pub open spec fn frame_corrupted(bytes: Seq<u8>) -> bool {
    !frame_incomplete(bytes) && bytes[frame_total_len(bytes) - 1] != FRAME_END
}

/// The frame at the front is all there and well terminated.
pub open spec fn frame_complete(bytes: Seq<u8>) -> bool {
    !frame_incomplete(bytes) && bytes[frame_total_len(bytes) - 1] == FRAME_END
}

/// The channel identifier of the frame at the front of the buffer.
pub open spec fn frame_channel(bytes: Seq<u8>) -> u16
    recommends
        bytes.len() >= FRAME_HEADER_LEN,
{
    u16_of_be(bytes[1], bytes[2])
}

/// The type byte of the frame at the front of the buffer.
pub open spec fn frame_type_of(bytes: Seq<u8>) -> u8
    recommends
        bytes.len() >= 1,
{
    bytes[0]
}

/// The payload bytes of the frame at the front of the buffer.
pub open spec fn frame_payload_of(bytes: Seq<u8>) -> Seq<u8>
    recommends
        frame_complete(bytes),
{
    bytes.subrange(FRAME_HEADER_LEN as int, frame_total_len(bytes) - 1)
}

/// What remains in the buffer once the frame at its front is consumed.
pub open spec fn frame_rest(bytes: Seq<u8>) -> Seq<u8>
    recommends
        frame_complete(bytes),
{
    bytes.skip(frame_total_len(bytes))
}

/// Splitting a 32-bit value into its big-endian bytes and reassembling them
/// gives the value back.
pub proof fn lemma_u32_be_round_trip(x: u32)
    ensures
        u32_of_be(
            ((x >> 24) & 0xff) as u8,
            ((x >> 16) & 0xff) as u8,
            ((x >> 8) & 0xff) as u8,
            (x & 0xff) as u8,
        ) == x,
{
    assert((((((x >> 24) & 0xff) as u8) as u32) << 24) | (((((x >> 16) & 0xff) as u8) as u32)
        << 16) | (((((x >> 8) & 0xff) as u8) as u32) << 8) | (((x & 0xff) as u8) as u32) == x)
        by (bit_vector);
}

/// Splitting a 16-bit value into its big-endian bytes and reassembling them
/// gives the value back.
pub proof fn lemma_u16_be_round_trip(x: u16)
    ensures
        u16_of_be(((x >> 8) & 0xff) as u8, (x & 0xff) as u8) == x,
{
    assert(((((((x >> 8) & 0xff) as u8) as u16) << 8) | (((x & 0xff) as u8) as u16)) == x)
        by (bit_vector);
}

/// The length field at offset 3 of an encoded frame is exactly the
/// big-endian encoding of the payload's byte length.
pub proof fn lemma_length_field(channel: u16, frame_type: u8, payload: Seq<u8>)
    requires
        payload.len() <= u32::MAX,
    ensures
        frame_bytes(channel, frame_type, payload).subrange(3, 7) == be_u32(
            payload.len() as u32,
        ),
{
    let bytes = frame_bytes(channel, frame_type, payload);
    assert(bytes.subrange(3, 7) =~= be_u32(payload.len() as u32));
}

/// Round-trip: the encoding of any frame decodes as one complete frame that
/// carries the same channel, the same type and the same payload, with
/// nothing left over.
pub proof fn lemma_frame_round_trip(channel: u16, frame_type: u8, payload: Seq<u8>)
    requires
        payload.len() <= u32::MAX,
    ensures
        frame_complete(frame_bytes(channel, frame_type, payload)),
        frame_channel(frame_bytes(channel, frame_type, payload)) == channel,
        frame_type_of(frame_bytes(channel, frame_type, payload)) == frame_type,
        frame_payload_of(frame_bytes(channel, frame_type, payload)) == payload,
        frame_rest(frame_bytes(channel, frame_type, payload)) == Seq::<u8>::empty(),
{
    let bytes = frame_bytes(channel, frame_type, payload);
    let n = payload.len() as u32;
    assert(bytes.len() == MIN_FRAME_LEN + payload.len());
    assert(bytes[3] == ((n >> 24) & 0xff) as u8);
    assert(bytes[4] == ((n >> 16) & 0xff) as u8);
    assert(bytes[5] == ((n >> 8) & 0xff) as u8);
    assert(bytes[6] == (n & 0xff) as u8);
    lemma_u32_be_round_trip(n);
    assert(declared_payload_len(bytes) == payload.len());
    assert(bytes[frame_total_len(bytes) - 1] == FRAME_END);
    lemma_u16_be_round_trip(channel);
    assert(frame_channel(bytes) == channel);
    assert(frame_payload_of(bytes) =~= payload);
    assert(frame_rest(bytes) =~= Seq::<u8>::empty());
}

} // verus!
