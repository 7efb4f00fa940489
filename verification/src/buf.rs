//! The byte buffers of the `bytes` crate, as this library sees them.
//!
//! `Bytes` and `BytesMut` stay opaque; each is described by the sequence of
//! bytes it holds, and every method the library calls has a wrapper below
//! whose contract says what the call does to that sequence.
use vstd::prelude::*;
use bytes::{Buf, Bytes, BytesMut};

verus! {

#[verifier::external_type_specification]
#[verifier::external_body]
pub struct ExBytes(Bytes);

#[verifier::external_type_specification]
#[verifier::external_body]
pub struct ExBytesMut(BytesMut);

/// The bytes that a `Bytes` handle refers to, in order.
pub uninterp spec fn bytes_seq(b: Bytes) -> Seq<u8>;

/// The bytes that a `BytesMut` buffer holds, in order.
pub uninterp spec fn bytes_mut_seq(b: BytesMut) -> Seq<u8>;

/// `<Bytes as Clone>::clone`: a second handle to the same bytes.
pub assume_specification[ <Bytes as Clone>::clone ](b: &Bytes) -> (r: Bytes)
    ensures
        bytes_seq(r) == bytes_seq(*b),
;

/// `Bytes::copy_from_slice`: a handle to a copy of the given bytes.
#[verifier::external_body]
pub(crate) fn bytes_copy_from_slice(s: &[u8]) -> (r: Bytes)
    ensures
        bytes_seq(r) == s@,
{
    Bytes::copy_from_slice(s)
}

/// `Bytes::from(Vec<u8>)`: a handle to the vector's bytes.
#[verifier::external_body]
pub(crate) fn bytes_from_vec(v: Vec<u8>) -> (r: Bytes)
    ensures
        bytes_seq(r) == v@,
{
    Bytes::from(v)
}

/// `Bytes::len`: the number of bytes.
#[verifier::external_body]
pub(crate) fn bytes_len(b: &Bytes) -> (r: usize)
    ensures
        r == bytes_seq(*b).len(),
{
    b.len()
}

/// `<Bytes as Deref>::deref`: the bytes as a slice.
#[verifier::external_body]
pub(crate) fn bytes_as_slice(b: &Bytes) -> (r: &[u8])
    ensures
        r@ == bytes_seq(*b),
{
    b
}

/// `Bytes::slice(start..end)`: a handle to the bytes in `start..end`.
/// The call panics unless `start <= end <= len`.
#[verifier::external_body]
pub(crate) fn bytes_slice(b: &Bytes, start: usize, end: usize) -> (r: Bytes)
    requires
        start <= end <= bytes_seq(*b).len(),
    ensures
        bytes_seq(r) == bytes_seq(*b).subrange(start as int, end as int),
{
    b.slice(start..end)
}

/// `BytesMut::with_capacity`: an empty buffer; the capacity is not modelled.
/// The allocation panics above `isize::MAX` bytes, which `requires` rules out.
#[verifier::external_body]
pub(crate) fn bytes_mut_with_capacity(n: usize) -> (r: BytesMut)
    requires
        n <= isize::MAX,
    ensures
        bytes_mut_seq(r) == Seq::<u8>::empty(),
{
    BytesMut::with_capacity(n)
}

/// `BytesMut::len`: the number of bytes held.
#[verifier::external_body]
pub(crate) fn bytes_mut_len(b: &BytesMut) -> (r: usize)
    ensures
        r == bytes_mut_seq(*b).len(),
{
    b.len()
}

/// `<BytesMut as Deref>::deref`: the bytes held, as a slice.
#[verifier::external_body]
pub(crate) fn bytes_mut_as_slice(b: &BytesMut) -> (r: &[u8])
    ensures
        r@ == bytes_mut_seq(*b),
{
    b
}

/// `BytesMut::extend_from_slice`: appends the bytes. The call panics when the
/// grown capacity would overflow, which the bound in `requires` rules out.
#[verifier::external_body]
pub(crate) fn bytes_mut_extend(b: &mut BytesMut, s: &[u8])
    requires
        bytes_mut_seq(*old(b)).len() + s@.len() <= isize::MAX,
    ensures
        bytes_mut_seq(*final(b)) == bytes_mut_seq(*old(b)) + s@,
{
    b.extend_from_slice(s)
}

/// `<BytesMut as Buf>::advance`: drops the first `n` bytes; panics if `n > len`.
#[verifier::external_body]
pub(crate) fn bytes_mut_advance(b: &mut BytesMut, n: usize)
    requires
        n <= bytes_mut_seq(*old(b)).len(),
    ensures
        bytes_mut_seq(*final(b)) == bytes_mut_seq(*old(b)).skip(n as int),
{
    b.advance(n)
}

/// `BytesMut::split_to`: takes the first `n` bytes out into a new buffer;
/// panics if `n > len`.
#[verifier::external_body]
pub(crate) fn bytes_mut_split_to(b: &mut BytesMut, n: usize) -> (r: BytesMut)
    requires
        n <= bytes_mut_seq(*old(b)).len(),
    ensures
        bytes_mut_seq(r) == bytes_mut_seq(*old(b)).take(n as int),
        bytes_mut_seq(*final(b)) == bytes_mut_seq(*old(b)).skip(n as int),
{
    b.split_to(n)
}

/// `BytesMut::freeze`: the same bytes as an immutable handle.
#[verifier::external_body]
pub(crate) fn bytes_mut_freeze(b: BytesMut) -> (r: Bytes)
    ensures
        bytes_seq(r) == bytes_mut_seq(b),
{
    b.freeze()
}

/// `BytesMut::clear`: removes all bytes.
#[verifier::external_body]
pub(crate) fn bytes_mut_clear(b: &mut BytesMut)
    ensures
        bytes_mut_seq(*final(b)) == Seq::<u8>::empty(),
{
    b.clear()
}

/// A new, empty buffer, for callers that encode frames into one.
pub fn empty_buffer() -> (r: BytesMut)
    ensures
        bytes_mut_seq(r).len() == 0,
{
    bytes_mut_with_capacity(0)
}

/// How many bytes a buffer holds: lets a caller check the room that an
/// encoder's bound asks for before it writes more.
pub fn buffer_len(b: &BytesMut) -> (r: usize)
    ensures
        r == bytes_mut_seq(*b).len(),
{
    bytes_mut_len(b)
}

/// The bytes a buffer holds.
pub fn buffer_bytes(b: &BytesMut) -> (r: &[u8])
    ensures
        r@ == bytes_mut_seq(*b),
{
    bytes_mut_as_slice(b)
}

} // verus!
