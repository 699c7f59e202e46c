//! The byte cursor that decoding reads from and the growable sink that
//! encoding writes to: `bytes::Bytes` and `bytes::BytesMut`, with what this
//! library relies on of each.
use bytes::{Buf, BufMut, Bytes, BytesMut};
use vstd::prelude::*;

verus! {

#[verifier::external_type_specification]
#[verifier::external_body]
pub struct ExBytes(Bytes);

#[verifier::external_type_specification]
#[verifier::external_body]
pub struct ExBytesMut(BytesMut);

/// The bytes that a `Bytes` cursor has not yet handed out.
pub uninterp spec fn bytes_view(b: Bytes) -> Seq<u8>;

/// The bytes written so far into a `BytesMut` sink.
pub uninterp spec fn buf_view(b: BytesMut) -> Seq<u8>;

/// Big-endian two-byte form of `n` (for `n < 0x1_0000`).
pub open spec fn be16_bytes(n: nat) -> Seq<u8> {
    seq![(n / 0x100) as u8, (n % 0x100) as u8]
}

/// Big-endian four-byte form of `n` (for `n < 0x1_0000_0000`).
pub open spec fn be32_bytes(n: nat) -> Seq<u8> {
    seq![
        (n / 0x100_0000) as u8,
        ((n / 0x1_0000) % 0x100) as u8,
        ((n / 0x100) % 0x100) as u8,
        (n % 0x100) as u8,
    ]
}

/// The number that two bytes spell in big-endian order.
pub open spec fn be16_value(b0: u8, b1: u8) -> nat {
    b0 as nat * 0x100 + b1 as nat
}

/// The number that four bytes spell in big-endian order.
pub open spec fn be32_value(b0: u8, b1: u8, b2: u8, b3: u8) -> nat {
    b0 as nat * 0x100_0000 + b1 as nat * 0x1_0000 + b2 as nat * 0x100 + b3 as nat
}

/// Relies on `Bytes::len`: the number of bytes left in the cursor.
#[verifier::external_body]
pub(crate) fn remaining(b: &Bytes) -> (r: usize)
    ensures
        r == bytes_view(*b).len(),
{
    b.len()
}

/// Relies on `Buf::get_u8` for `Bytes`: returns the first byte and advances
/// past it (it panics on an empty cursor).
#[verifier::external_body]
pub(crate) fn take_u8(b: &mut Bytes) -> (r: u8)
    requires
        bytes_view(*old(b)).len() >= 1,
    ensures
        r == bytes_view(*old(b))[0],
        bytes_view(*final(b)) == bytes_view(*old(b)).subrange(1, bytes_view(*old(b)).len() as int),
{
    b.get_u8()
}

/// Relies on `Buf::get_u16` for `Bytes`: reads two bytes as a big-endian
/// number and advances past them (it panics with fewer left).
#[verifier::external_body]
pub(crate) fn take_u16(b: &mut Bytes) -> (r: u16)
    requires
        bytes_view(*old(b)).len() >= 2,
    ensures
        r as nat == be16_value(bytes_view(*old(b))[0], bytes_view(*old(b))[1]),
        bytes_view(*final(b)) == bytes_view(*old(b)).subrange(2, bytes_view(*old(b)).len() as int),
{
    b.get_u16()
}

/// Relies on `Buf::get_u32` for `Bytes`: reads four bytes as a big-endian
/// number and advances past them (it panics with fewer left).
#[verifier::external_body]
pub(crate) fn take_u32(b: &mut Bytes) -> (r: u32)
    requires
        bytes_view(*old(b)).len() >= 4,
    ensures
        r as nat == be32_value(
            bytes_view(*old(b))[0],
            bytes_view(*old(b))[1],
            bytes_view(*old(b))[2],
            bytes_view(*old(b))[3],
        ),
        bytes_view(*final(b)) == bytes_view(*old(b)).subrange(4, bytes_view(*old(b)).len() as int),
{
    b.get_u32()
}

/// Relies on `Bytes::split_to`: detaches the first `n` bytes, which are
/// copied out, and leaves the cursor after them (it panics if `n` exceeds
/// what is left).
#[verifier::external_body]
pub(crate) fn take_bytes(b: &mut Bytes, n: usize) -> (r: Vec<u8>)
    requires
        n <= bytes_view(*old(b)).len(),
    ensures
        r@ == bytes_view(*old(b)).subrange(0, n as int),
        bytes_view(*final(b)) == bytes_view(*old(b)).subrange(n as int, bytes_view(*old(b)).len() as int),
{
    b.split_to(n).to_vec()
}

/// Relies on `BytesMut::new`: an empty sink.
#[verifier::external_body]
pub(crate) fn new_sink() -> (r: BytesMut)
    ensures
        buf_view(r) == Seq::<u8>::empty(),
{
    BytesMut::new()
}

/// Relies on `BytesMut::freeze`: the same bytes, now as a read cursor.
#[verifier::external_body]
pub(crate) fn freeze(b: BytesMut) -> (r: Bytes)
    ensures
        bytes_view(r) == buf_view(b),
{
    b.freeze()
}

/// Relies on `BytesMut::reserve`: makes room for `n` more bytes and leaves
/// the contents alone (it panics when the capacity would overflow).
#[verifier::external_body]
pub(crate) fn reserve(b: &mut BytesMut, n: usize)
    requires
        buf_view(*old(b)).len() + n <= isize::MAX,
    ensures
        buf_view(*final(b)) == buf_view(*old(b)),
{
    b.reserve(n)
}

/// Relies on `BufMut::put_u8` for `BytesMut`: appends one byte.
#[verifier::external_body]
pub(crate) fn put_u8(b: &mut BytesMut, v: u8)
    requires
        buf_view(*old(b)).len() + 1 <= isize::MAX,
    ensures
        buf_view(*final(b)) == buf_view(*old(b)).push(v),
{
    b.put_u8(v)
}

/// Relies on `BufMut::put_u16` for `BytesMut`: appends `v` in big-endian order.
#[verifier::external_body]
pub(crate) fn put_u16(b: &mut BytesMut, v: u16)
    requires
        buf_view(*old(b)).len() + 2 <= isize::MAX,
    ensures
        buf_view(*final(b)) == buf_view(*old(b)) + be16_bytes(v as nat),
{
    b.put_u16(v)
}

/// Relies on `BufMut::put_u32` for `BytesMut`: appends `v` in big-endian order.
#[verifier::external_body]
pub(crate) fn put_u32(b: &mut BytesMut, v: u32)
    requires
        buf_view(*old(b)).len() + 4 <= isize::MAX,
    ensures
        buf_view(*final(b)) == buf_view(*old(b)) + be32_bytes(v as nat),
{
    b.put_u32(v)
}

/// Relies on `BufMut::put_slice` for `BytesMut`: appends the slice.
#[verifier::external_body]
pub(crate) fn put_slice(b: &mut BytesMut, s: &[u8])
    requires
        buf_view(*old(b)).len() + s@.len() <= isize::MAX,
    ensures
        buf_view(*final(b)) == buf_view(*old(b)) + s@,
{
    b.put_slice(s)
}

} // verus!
