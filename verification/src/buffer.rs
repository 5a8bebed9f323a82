//! Trusted surface over the growable byte buffer of the `bytes` crate.
//!
//! Each half of the transport owns one `bytes::BytesMut` scratch buffer.
//! The buffer is opaque to the verifier, so its abstract contents are given
//! a name, [`buf_view`], and every operation the transport performs on it
//! stands behind a small trusted wrapper whose contract states, over that
//! name, what the `bytes` crate's source shows the operation does.

use vstd::prelude::*;
use bytes::Buf;

verus! {

/// Initial capacity of each half's scratch buffer, sized to amortize
/// reallocation for typical frame sizes; it does not bound frame size.
pub const DEFAULT_BUFFER_SIZE: usize = 8192;

#[verifier::external_type_specification]
#[verifier::external_body]
pub struct ExBytesMut(bytes::BytesMut);

/// The bytes the buffer currently holds, front to back.
pub uninterp spec fn buf_view(b: bytes::BytesMut) -> Seq<u8>;

/// Relies on bytes::BytesMut::with_capacity: the new buffer has length 0.
#[verifier::external_body]
pub(crate) fn buf_with_capacity(capacity: usize) -> (r: bytes::BytesMut)
    ensures
        buf_view(r) == Seq::<u8>::empty(),
{
    bytes::BytesMut::with_capacity(capacity)
}

/// Relies on bytes::BytesMut::len: the number of bytes the buffer holds.
#[verifier::external_body]
pub(crate) fn buf_len(b: &bytes::BytesMut) -> (r: usize)
    ensures
        r == buf_view(*b).len(),
{
    b.len()
}

/// Relies on the slice index through bytes::BytesMut's Deref to `[u8]`:
/// reads the byte at position `i`.
#[verifier::external_body]
pub(crate) fn buf_get(b: &bytes::BytesMut, i: usize) -> (r: u8)
    requires
        i < buf_view(*b).len(),
    ensures
        r == buf_view(*b)[i as int],
{
    b[i]
}

/// Relies on the slice index through bytes::BytesMut's DerefMut to `[u8]`:
/// overwrites the byte at position `i` in place.
#[verifier::external_body]
pub(crate) fn buf_set(b: &mut bytes::BytesMut, i: usize, v: u8)
    requires
        i < buf_view(*old(b)).len(),
    ensures
        buf_view(*final(b)) == buf_view(*old(b)).update(i as int, v),
{
    b[i] = v;
}

/// Relies on bytes::BytesMut::extend_from_slice: appends the given bytes
/// at the back, growing the buffer as needed.
#[verifier::external_body]
pub(crate) fn buf_extend(b: &mut bytes::BytesMut, data: &Vec<u8>)
    ensures
        buf_view(*final(b)) == buf_view(*old(b)) + data@,
{
    b.extend_from_slice(data.as_slice());
}

/// Relies on bytes::Buf::advance on BytesMut: discards exactly `n` bytes
/// from the front. The call panics past the remaining length, so that is
/// required away.
#[verifier::external_body]
pub(crate) fn buf_advance(b: &mut bytes::BytesMut, n: usize)
    requires
        n <= buf_view(*old(b)).len(),
    ensures
        buf_view(*final(b)) == buf_view(*old(b)).skip(n as int),
{
    b.advance(n);
}

/// Relies on `[u8]::to_vec` through bytes::BytesMut's Deref: copies the
/// buffer's contents, front to back, into a fresh vector.
#[verifier::external_body]
pub(crate) fn buf_to_vec(b: &bytes::BytesMut) -> (r: Vec<u8>)
    ensures
        r@ == buf_view(*b),
{
    b.to_vec()
}

} // verus!
