//! Big-endian integers on the wire.

use byteorder::{BigEndian, ByteOrder, WriteBytesExt};
use vstd::prelude::*;

verus! {

/// The two bytes of `n`, most significant first.
pub open spec fn u16_be(n: u16) -> Seq<u8> {
    seq![(n / 0x100) as u8, (n % 0x100) as u8]
}

/// The four bytes of `n`, most significant first.
pub open spec fn u32_be(n: u32) -> Seq<u8> {
    seq![
        (n / 0x100_0000) as u8,
        (n / 0x1_0000 % 0x100) as u8,
        (n / 0x100 % 0x100) as u8,
        (n % 0x100) as u8,
    ]
}

/// The integer whose big-endian bytes are the first two of `bytes`.
pub open spec fn u16_from_be(bytes: Seq<u8>) -> u16
    recommends
        bytes.len() >= 2,
{
    (bytes[0] * 0x100 + bytes[1]) as u16
}

/// The integer whose big-endian bytes are the first four of `bytes`.
pub open spec fn u32_from_be(bytes: Seq<u8>) -> u32
    recommends
        bytes.len() >= 4,
{
    (bytes[0] * 0x100_0000 + bytes[1] * 0x1_0000 + bytes[2] * 0x100 + bytes[3]) as u32
}

/// Reading back what was written gives the integer that was written.
pub proof fn lemma_u16_be_roundtrip(n: u16)
    ensures
        u16_be(n).len() == 2,
        u16_from_be(u16_be(n)) == n,
{
}

/// Reading back what was written gives the integer that was written.
pub proof fn lemma_u32_be_roundtrip(n: u32)
    ensures
        u32_be(n).len() == 4,
        u32_from_be(u32_be(n)) == n,
{
}

/// Writing what was read gives back the bytes that were read.
pub proof fn lemma_u16_from_be_roundtrip(bytes: Seq<u8>)
    requires
        bytes.len() == 2,
    ensures
        u16_be(u16_from_be(bytes)) == bytes,
{
    assert(u16_be(u16_from_be(bytes)) =~= bytes);
}

/// Writing what was read gives back the bytes that were read.
pub proof fn lemma_u32_from_be_roundtrip(bytes: Seq<u8>)
    requires
        bytes.len() == 4,
    ensures
        u32_be(u32_from_be(bytes)) == bytes,
{
    assert(u32_be(u32_from_be(bytes)) =~= bytes);
}

/// `WriteBytesExt::write_u16::<BigEndian>` on a `Vec<u8>`: appends the two
/// bytes of `n`, most significant first, and leaves what was there untouched.
/// Writing to a vector cannot fail, so the result of the call is dropped.
#[verifier::external_body]
pub(crate) fn write_u16(out: &mut Vec<u8>, n: u16)
    ensures
        final(out)@ == old(out)@ + u16_be(n),
{
    let _ = out.write_u16::<BigEndian>(n);
}

/// `WriteBytesExt::write_u32::<BigEndian>` on a `Vec<u8>`: appends the four
/// bytes of `n`, most significant first, and leaves what was there untouched.
/// Writing to a vector cannot fail, so the result of the call is dropped.
#[verifier::external_body]
pub(crate) fn write_u32(out: &mut Vec<u8>, n: u32)
    ensures
        final(out)@ == old(out)@ + u32_be(n),
{
    let _ = out.write_u32::<BigEndian>(n);
}

/// `ByteOrder::read_u16` of `BigEndian`: the integer whose big-endian bytes
/// are the first two of `buf`. The call panics on a shorter buffer, which the
/// precondition rules out.
#[verifier::external_body]
pub(crate) fn read_u16(buf: &[u8]) -> (n: u16)
    requires
        buf@.len() >= 2,
    ensures
        n == u16_from_be(buf@),
{
    BigEndian::read_u16(buf)
}

/// `ByteOrder::read_u32` of `BigEndian`: the integer whose big-endian bytes
/// are the first four of `buf`. The call panics on a shorter buffer, which the
/// precondition rules out.
#[verifier::external_body]
pub(crate) fn read_u32(buf: &[u8]) -> (n: u32)
    requires
        buf@.len() >= 4,
    ensures
        n == u32_from_be(buf@),
{
    BigEndian::read_u32(buf)
}

} // verus!
