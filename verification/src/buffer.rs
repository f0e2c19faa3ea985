//! The byte buffers of the `bytes` crate, as the codecs use them.
//!
//! Nothing in this module is proved: each function states what the `bytes`
//! crate documents of the method it calls, over the sequence of bytes that
//! the buffer holds.

use bytes::{Buf, BufMut, Bytes, BytesMut};
use vstd::prelude::*;

verus! {

/// `bytes::Bytes`: an immutable, cheaply cloneable run of bytes.
#[verifier::external_type_specification]
#[verifier::external_body]
pub struct ExBytes(Bytes);

/// `bytes::BytesMut`: a growable buffer of bytes.
#[verifier::external_type_specification]
#[verifier::external_body]
pub struct ExBytesMut(BytesMut);

/// The bytes that a `Bytes` holds, front first.
pub uninterp spec fn bytes_contents(b: Bytes) -> Seq<u8>;

/// The bytes that a `BytesMut` holds, front first.
pub uninterp spec fn buffer_contents(b: BytesMut) -> Seq<u8>;

/// `Bytes::len`: the number of bytes held.
#[verifier::external_body]
pub(crate) fn bytes_len(b: &Bytes) -> (n: usize)
    ensures
        n == bytes_contents(*b).len(),
{
    b.len()
}

/// `Buf::get_u8` on a `Bytes`: hands out the first byte and drops it from the
/// front. The method panics on an empty buffer, which `requires` excludes.
#[verifier::external_body]
pub(crate) fn bytes_get_u8(b: &mut Bytes) -> (byte: u8)
    requires
        bytes_contents(*old(b)).len() >= 1,
    ensures
        byte == bytes_contents(*old(b))[0],
        bytes_contents(*final(b)) == bytes_contents(*old(b)).skip(1),
{
    b.get_u8()
}

/// `Bytes::split_to`: afterwards the argument holds the bytes from `at` on and
/// the result holds the first `at`. The method panics where `at` exceeds the
/// length, which `requires` excludes.
#[verifier::external_body]
pub(crate) fn bytes_split_to(b: &mut Bytes, at: usize) -> (front: Bytes)
    requires
        at <= bytes_contents(*old(b)).len(),
    ensures
        bytes_contents(front) == bytes_contents(*old(b)).take(at as int),
        bytes_contents(*final(b)) == bytes_contents(*old(b)).skip(at as int),
{
    b.split_to(at)
}

/// The slice that a `Bytes` dereferences to: the same bytes in the same order.
#[verifier::external_body]
pub(crate) fn bytes_as_slice(b: &Bytes) -> (s: &[u8])
    ensures
        s@ == bytes_contents(*b),
{
    &b[..]
}

/// `Bytes::clone`: a second handle on the same bytes.
pub assume_specification[ <Bytes as Clone>::clone ](b: &Bytes) -> (c: Bytes)
    ensures
        bytes_contents(c) == bytes_contents(*b),
;

/// `BytesMut::new`: an empty buffer.
#[verifier::external_body]
pub(crate) fn buffer_new() -> (b: BytesMut)
    ensures
        buffer_contents(b) == Seq::<u8>::empty(),
{
    BytesMut::new()
}

/// `BytesMut::len`: the number of bytes held.
#[verifier::external_body]
pub(crate) fn buffer_len(b: &BytesMut) -> (n: usize)
    ensures
        n == buffer_contents(*b).len(),
{
    b.len()
}

/// The slice that a `BytesMut` dereferences to: the same bytes in the same
/// order.
#[verifier::external_body]
pub(crate) fn buffer_as_slice(b: &BytesMut) -> (s: &[u8])
    ensures
        s@ == buffer_contents(*b),
{
    &b[..]
}

/// Indexing a `BytesMut` (it dereferences to a slice): the byte at `i`.
/// Indexing panics past the end, which `requires` excludes.
#[verifier::external_body]
pub(crate) fn buffer_byte_at(b: &BytesMut, i: usize) -> (byte: u8)
    requires
        i < buffer_contents(*b).len(),
    ensures
        byte == buffer_contents(*b)[i as int],
{
    b[i]
}

/// `BytesMut::reserve`: makes room for more bytes; the bytes held stay as
/// they are. The method panics where the new capacity overflows `usize`,
/// which `requires` excludes.
#[verifier::external_body]
pub(crate) fn buffer_reserve(b: &mut BytesMut, additional: usize)
    requires
        buffer_contents(*old(b)).len() + additional <= usize::MAX,
    ensures
        buffer_contents(*final(b)) == buffer_contents(*old(b)),
{
    b.reserve(additional)
}

/// `BytesMut::split_to`: afterwards the argument holds the bytes from `at` on
/// and the result holds the first `at`. The method panics where `at` exceeds
/// the length, which `requires` excludes.
#[verifier::external_body]
pub(crate) fn buffer_split_to(b: &mut BytesMut, at: usize) -> (front: BytesMut)
    requires
        at <= buffer_contents(*old(b)).len(),
    ensures
        buffer_contents(front) == buffer_contents(*old(b)).take(at as int),
        buffer_contents(*final(b)) == buffer_contents(*old(b)).skip(at as int),
{
    b.split_to(at)
}

/// `BytesMut::freeze`: the same bytes as an immutable `Bytes`.
#[verifier::external_body]
pub(crate) fn buffer_freeze(b: BytesMut) -> (frozen: Bytes)
    ensures
        bytes_contents(frozen) == buffer_contents(b),
{
    b.freeze()
}

/// `BufMut::put_u8` on a `BytesMut`: appends one byte, growing the buffer as
/// needed. As with `Vec::push`, only a buffer that outgrows what can be
/// allocated makes it fail.
#[verifier::external_body]
pub(crate) fn buffer_put_u8(b: &mut BytesMut, byte: u8)
    ensures
        buffer_contents(*final(b)) == buffer_contents(*old(b)).push(byte),
{
    b.put_u8(byte)
}

/// `BufMut::put_slice` on a `BytesMut`: appends the slice's bytes in order,
/// growing the buffer as needed. As with `Vec::extend_from_slice`, only a
/// buffer that outgrows what can be allocated makes it fail.
#[verifier::external_body]
pub(crate) fn buffer_put_slice(b: &mut BytesMut, src: &[u8])
    ensures
        buffer_contents(*final(b)) == buffer_contents(*old(b)) + src@,
{
    b.put_slice(src)
}

} // verus!
