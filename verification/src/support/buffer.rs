//! The growable byte buffer of the `bytes` crate, as the protocol code sees it.
use vstd::prelude::*;
use bytes::BufMut;
use bytes::BytesMut;
use crate::support::wire::{i16_be, u32_be};

verus! {

#[verifier::external_type_specification]
#[verifier::external_body]
pub struct ExBytesMut(BytesMut);

/// The bytes that a `BytesMut` holds, from its first readable byte to its end.
pub uninterp spec fn bytes_contents(b: BytesMut) -> Seq<u8>;

/// `BytesMut::len`: the number of bytes held.
#[verifier::external_body]
pub(crate) fn buf_len(b: &BytesMut) -> (n: usize)
    ensures
        n == bytes_contents(*b).len(),
{
    b.len()
}

/// Indexing through `BytesMut`'s `Deref<Target = [u8]>`: the byte at `i`.
#[verifier::external_body]
pub(crate) fn buf_byte(b: &BytesMut, i: usize) -> (v: u8)
    requires
        i < bytes_contents(*b).len(),
    ensures
        v == bytes_contents(*b)[i as int],
{
    b[i]
}

/// `BytesMut::reserve`: makes room for `additional` more bytes; the contents stay as they were.
/// The source panics when the new capacity overflows; allocations beyond `isize::MAX` fail too,
/// which `requires` leaves out.
#[verifier::external_body]
pub(crate) fn buf_reserve(b: &mut BytesMut, additional: usize)
    requires
        bytes_contents(*old(b)).len() + additional <= isize::MAX,
    ensures
        bytes_contents(*final(b)) == bytes_contents(*old(b)),
{
    b.reserve(additional)
}

/// `BufMut::put_i16` on `BytesMut`: appends the two big-endian bytes of `v`.
#[verifier::external_body]
pub(crate) fn buf_put_i16(b: &mut BytesMut, v: i16)
    requires
        bytes_contents(*old(b)).len() + 2 <= isize::MAX,
    ensures
        bytes_contents(*final(b)) == bytes_contents(*old(b)) + i16_be(v),
{
    b.put_i16(v)
}

/// `BufMut::put_u32` on `BytesMut`: appends the four big-endian bytes of `v`.
#[verifier::external_body]
pub(crate) fn buf_put_u32(b: &mut BytesMut, v: u32)
    requires
        bytes_contents(*old(b)).len() + 4 <= isize::MAX,
    ensures
        bytes_contents(*final(b)) == bytes_contents(*old(b)) + u32_be(v),
{
    b.put_u32(v)
}

/// `BytesMut::extend_from_slice`: appends the bytes of `s`.
#[verifier::external_body]
pub(crate) fn buf_extend(b: &mut BytesMut, s: &[u8])
    requires
        bytes_contents(*old(b)).len() + s@.len() <= isize::MAX,
    ensures
        bytes_contents(*final(b)) == bytes_contents(*old(b)) + s@,
{
    b.extend_from_slice(s)
}

/// `BytesMut::split_to`: the buffer keeps the bytes from `at` on; the first `at` bytes are
/// handed back in a buffer of their own. The source panics when `at` exceeds the length.
#[verifier::external_body]
pub(crate) fn buf_split_to(b: &mut BytesMut, at: usize) -> (head: BytesMut)
    requires
        at <= bytes_contents(*old(b)).len(),
    ensures
        bytes_contents(*final(b)) == bytes_contents(*old(b)).skip(at as int),
        bytes_contents(head) == bytes_contents(*old(b)).take(at as int),
{
    b.split_to(at)
}

} // verus!
