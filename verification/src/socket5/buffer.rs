//! The growable byte buffer that messages are assembled in.
//!
//! The buffer is `bytes::BytesMut`. Verus does not look inside it: what it
//! holds is named by [`buffered`], and each call that the codec makes goes
//! through one of the functions below, whose contract is taken on trust from
//! the crate's source.
use bytes::{BufMut, BytesMut};
use vstd::prelude::*;
use vstd::slice::slice_to_vec;

verus! {

/// `bytes::BytesMut`, taken as an opaque value.
#[verifier::external_type_specification]
#[verifier::external_body]
pub struct ExBytesMut(bytes::BytesMut);

/// The bytes that a buffer holds, in the order in which they were put.
pub uninterp spec fn buffered(buf: BytesMut) -> Seq<u8>;

/// The two bytes of a 16-bit number in network order, high byte first.
pub open spec fn be16(n: u16) -> Seq<u8> {
    seq![(n / 256) as u8, (n % 256) as u8]
}

/// The 16-bit number whose network-order bytes are `hi`, `lo`.
pub open spec fn from_be16(hi: u8, lo: u8) -> u16 {
    (hi * 256 + lo) as u16
}

/// `BytesMut::with_capacity`: a buffer that holds nothing yet. The capacity is
/// handed to `Vec::with_capacity`, which panics above `isize::MAX` bytes.
#[verifier::external_body]
pub(crate) fn with_capacity(capacity: usize) -> (buf: BytesMut)
    requires
        capacity <= isize::MAX,
    ensures
        buffered(buf) == Seq::<u8>::empty(),
{
    BytesMut::with_capacity(capacity)
}

/// `BufMut::put_u8` on a `BytesMut`: appends one byte, growing the buffer as
/// needed. Growth panics only where the length would pass `isize::MAX`.
#[verifier::external_body]
pub(crate) fn put_u8(buf: &mut BytesMut, n: u8)
    requires
        buffered(*old(buf)).len() < isize::MAX,
    ensures
        buffered(*final(buf)) == buffered(*old(buf)).push(n),
{
    buf.put_u8(n)
}

/// `BufMut::put_u16` on a `BytesMut`: appends the number's two bytes in
/// big-endian order.
#[verifier::external_body]
pub(crate) fn put_u16(buf: &mut BytesMut, n: u16)
    requires
        buffered(*old(buf)).len() + 2 <= isize::MAX,
    ensures
        buffered(*final(buf)) == buffered(*old(buf)) + be16(n),
{
    buf.put_u16(n)
}

/// `BufMut::put_slice` on a `BytesMut`: appends all of `src`.
#[verifier::external_body]
pub(crate) fn put_slice(buf: &mut BytesMut, src: &[u8])
    requires
        buffered(*old(buf)).len() + src@.len() <= isize::MAX,
    ensures
        buffered(*final(buf)) == buffered(*old(buf)) + src@,
{
    buf.put_slice(src)
}

/// `Deref` of a `BytesMut`: the slice of the bytes that it holds.
#[verifier::external_body]
pub(crate) fn filled(buf: &BytesMut) -> (s: &[u8])
    ensures
        s@ == buffered(*buf),
{
    &buf[..]
}

/// Hands the assembled message to the sink in one piece.
pub(crate) fn write_all(write: &mut Vec<u8>, buf: &BytesMut)
    ensures
        final(write)@ == old(write)@ + buffered(*buf),
{
    let mut bytes = slice_to_vec(filled(buf));
    write.append(&mut bytes);
}

} // verus!
