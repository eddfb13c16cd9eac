//! Byte buffers of the `bytes` crate, and the byte order of the integers
//! written to them.

use bytes::{Buf, BufMut, Bytes, BytesMut};
use vstd::prelude::*;

verus! {

/// `bytes::Bytes`: a string of bytes that is not written to any more, and
/// that is read from its front. What it holds goes by the name `bytes_seq`.
#[verifier::external_type_specification]
#[verifier::external_body]
pub struct ExBytes(bytes::Bytes);

/// `bytes::BytesMut`: a buffer that grows as bytes are written to its end.
/// What it holds goes by the name `buffer_seq`.
#[verifier::external_type_specification]
#[verifier::external_body]
pub struct ExBytesMut(bytes::BytesMut);

/// The bytes that a `Bytes` value holds, from its first unread byte on.
pub uninterp spec fn bytes_seq(b: Bytes) -> Seq<u8>;

/// The bytes that a `BytesMut` holds, in the order in which they were
/// written.
pub uninterp spec fn buffer_seq(b: BytesMut) -> Seq<u8>;

/// The last `n` base-256 digits of `u`, most significant first.
pub open spec fn be_bytes(u: int, n: nat) -> Seq<u8>
    decreases n,
{
    if n == 0 {
        Seq::empty()
    } else {
        be_bytes(u / 0x100, (n - 1) as nat).push((u % 0x100) as u8)
    }
}

/// The number that the bytes of `s` spell as base-256 digits, most
/// significant first.
pub open spec fn be_value(s: Seq<u8>) -> int
    decreases s.len(),
{
    if s.len() == 0 {
        0
    } else {
        be_value(s.drop_last()) * 0x100 + s.last()
    }
}

/// 256 to the power `n`.
pub open spec fn radix_pow(n: nat) -> int
    decreases n,
{
    if n == 0 {
        1
    } else {
        0x100 * radix_pow((n - 1) as nat)
    }
}

/// A 16-bit unsigned integer in big-endian order.
pub open spec fn be_u16(v: u16) -> Seq<u8> {
    be_bytes(v as int, 2)
}

/// The 16-bit unsigned integer that the bytes of `s` spell in big-endian
/// order.
pub open spec fn u16_of_be(s: Seq<u8>) -> u16
    recommends
        s.len() == 2,
{
    be_value(s) as u16
}

/// A signed 64-bit integer as the unsigned number with the same bits.
pub open spec fn twos_complement(v: i64) -> int {
    if v >= 0 {
        v as int
    } else {
        v + 0x1_0000_0000_0000_0000
    }
}

/// The signed 64-bit integer whose bits spell the unsigned number `u`.
pub open spec fn from_twos_complement(u: int) -> i64
    recommends
        0 <= u < 0x1_0000_0000_0000_0000,
{
    if u < 0x8000_0000_0000_0000 {
        u as i64
    } else {
        (u - 0x1_0000_0000_0000_0000) as i64
    }
}

/// A signed 64-bit integer in big-endian order, two's complement.
pub open spec fn be_i64(v: i64) -> Seq<u8> {
    be_bytes(twos_complement(v), 8)
}

/// The signed 64-bit integer that the bytes of `s` spell in big-endian
/// order, two's complement.
pub open spec fn i64_of_be(s: Seq<u8>) -> i64
    recommends
        s.len() == 8,
{
    from_twos_complement(be_value(s))
}

/// `n` digits hold every number below 256 to the `n`, and spell it back.
pub proof fn lemma_be_round_trip(u: int, n: nat)
    requires
        0 <= u < radix_pow(n),
    ensures
        be_bytes(u, n).len() == n,
        be_value(be_bytes(u, n)) == u,
    decreases n,
{
    if n > 0 {
        let rest = be_bytes(u / 0x100, (n - 1) as nat);
        lemma_be_round_trip(u / 0x100, (n - 1) as nat);
        assert(be_bytes(u, n).drop_last() =~= rest);
    }
}

/// Reading a 16-bit integer back from its big-endian bytes gives the integer.
pub proof fn lemma_u16_round_trip(v: u16)
    ensures
        be_u16(v).len() == 2,
        u16_of_be(be_u16(v)) == v,
{
    reveal_with_fuel(radix_pow, 3);
    lemma_be_round_trip(v as int, 2);
}

/// Reading a 64-bit integer back from its big-endian bytes gives the integer.
pub proof fn lemma_i64_round_trip(v: i64)
    ensures
        be_i64(v).len() == 8,
        i64_of_be(be_i64(v)) == v,
{
    reveal_with_fuel(radix_pow, 9);
    lemma_be_round_trip(twos_complement(v), 8);
}

/// `Bytes::from` on a `Vec<u8>`: the result holds the vector's bytes in
/// order.
#[verifier::external_body]
pub(crate) fn bytes_from_vec(v: Vec<u8>) -> (b: Bytes)
    ensures
        bytes_seq(b) == v@,
{
    Bytes::from(v)
}

/// `Clone` of `Bytes`: the clone holds the same bytes.
pub assume_specification[ <bytes::Bytes as core::clone::Clone>::clone ](b: &Bytes) -> (copy: Bytes)
    ensures
        bytes_seq(copy) == bytes_seq(*b),
;

/// `AsRef<[u8]>` of `Bytes`: the slice is the bytes held.
#[verifier::external_body]
pub(crate) fn bytes_as_slice(b: &Bytes) -> (s: &[u8])
    ensures
        s@ == bytes_seq(*b),
{
    b.as_ref()
}

/// `Buf::get_i64` on `Bytes`: takes the first eight bytes off the front and
/// returns the integer they spell in big-endian order. The call panics on
/// fewer than eight bytes, which `requires` leaves out.
#[verifier::external_body]
pub(crate) fn bytes_get_i64(b: &mut Bytes) -> (v: i64)
    requires
        bytes_seq(*old(b)).len() >= 8,
    ensures
        v == i64_of_be(bytes_seq(*old(b)).subrange(0, 8)),
        bytes_seq(*final(b)) == bytes_seq(*old(b)).subrange(8, bytes_seq(*old(b)).len() as int),
{
    b.get_i64()
}

/// `Buf::get_u16` on `Bytes`: takes the first two bytes off the front and
/// returns the integer they spell in big-endian order. The call panics on
/// fewer than two bytes, which `requires` leaves out.
#[verifier::external_body]
pub(crate) fn bytes_get_u16(b: &mut Bytes) -> (v: u16)
    requires
        bytes_seq(*old(b)).len() >= 2,
    ensures
        v == u16_of_be(bytes_seq(*old(b)).subrange(0, 2)),
        bytes_seq(*final(b)) == bytes_seq(*old(b)).subrange(2, bytes_seq(*old(b)).len() as int),
{
    b.get_u16()
}

/// `Buf::copy_to_bytes` on `Bytes`: splits the first `len` bytes off the
/// front and returns them. The call panics where `len` is more than what is
/// left, which `requires` leaves out.
#[verifier::external_body]
pub(crate) fn bytes_copy_to_bytes(b: &mut Bytes, len: usize) -> (head: Bytes)
    requires
        len <= bytes_seq(*old(b)).len(),
    ensures
        bytes_seq(head) == bytes_seq(*old(b)).subrange(0, len as int),
        bytes_seq(*final(b)) == bytes_seq(*old(b)).subrange(
            len as int,
            bytes_seq(*old(b)).len() as int,
        ),
{
    b.copy_to_bytes(len)
}

/// `BytesMut::with_capacity`: a buffer to which nothing was written yet.
#[verifier::external_body]
pub(crate) fn buffer_with_capacity(capacity: usize) -> (b: BytesMut)
    ensures
        buffer_seq(b) == Seq::<u8>::empty(),
{
    BytesMut::with_capacity(capacity)
}

/// `BufMut::put_i64` on `BytesMut`: appends the integer's eight bytes in
/// big-endian order; the buffer grows as needed.
#[verifier::external_body]
pub(crate) fn buffer_put_i64(b: &mut BytesMut, v: i64)
    ensures
        buffer_seq(*final(b)) == buffer_seq(*old(b)) + be_i64(v),
{
    b.put_i64(v)
}

/// `BufMut::put_u16` on `BytesMut`: appends the integer's two bytes in
/// big-endian order; the buffer grows as needed.
#[verifier::external_body]
pub(crate) fn buffer_put_u16(b: &mut BytesMut, v: u16)
    ensures
        buffer_seq(*final(b)) == buffer_seq(*old(b)) + be_u16(v),
{
    b.put_u16(v)
}

/// `BufMut::put_slice` on `BytesMut`: appends the slice's bytes in order; the
/// buffer grows as needed.
#[verifier::external_body]
pub(crate) fn buffer_put_slice(b: &mut BytesMut, src: &[u8])
    ensures
        buffer_seq(*final(b)) == buffer_seq(*old(b)) + src@,
{
    b.put_slice(src)
}

/// `BytesMut::freeze`: the immutable value holds what was written.
#[verifier::external_body]
pub(crate) fn buffer_freeze(b: BytesMut) -> (frozen: Bytes)
    ensures
        bytes_seq(frozen) == buffer_seq(b),
{
    b.freeze()
}

} // verus!
