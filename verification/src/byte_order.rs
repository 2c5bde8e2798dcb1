//! Big-endian integers on the wire.
//!
//! The conversions themselves are done by the `byteorder` crate; this module
//! states what they compute and proves that reading undoes writing.

use byteorder::BigEndian;
use byteorder::ByteOrder;
use vstd::prelude::*;

verus! {

/// The eight bytes of `n`, most significant byte first.
pub open spec fn be_bytes_u64(n: u64) -> Seq<u8> {
    seq![
        (n >> 56) as u8,
        ((n >> 48) & 0xff) as u8,
        ((n >> 40) & 0xff) as u8,
        ((n >> 32) & 0xff) as u8,
        ((n >> 24) & 0xff) as u8,
        ((n >> 16) & 0xff) as u8,
        ((n >> 8) & 0xff) as u8,
        (n & 0xff) as u8,
    ]
}

/// The four bytes of `n`, most significant byte first.
pub open spec fn be_bytes_u32(n: u32) -> Seq<u8> {
    seq![
        (n >> 24) as u8,
        ((n >> 16) & 0xff) as u8,
        ((n >> 8) & 0xff) as u8,
        (n & 0xff) as u8,
    ]
}

/// The integer whose big-endian form is the first eight bytes of `bytes`.
pub open spec fn be_u64(bytes: Seq<u8>) -> u64
    recommends
        bytes.len() >= 8,
{
    (bytes[0] as u64) << 56 | (bytes[1] as u64) << 48 | (bytes[2] as u64) << 40 | (bytes[3] as u64)
        << 32 | (bytes[4] as u64) << 24 | (bytes[5] as u64) << 16 | (bytes[6] as u64) << 8
        | (bytes[7] as u64)
}

/// The integer whose big-endian form is the first four bytes of `bytes`.
pub open spec fn be_u32(bytes: Seq<u8>) -> u32
    recommends
        bytes.len() >= 4,
{
    (bytes[0] as u32) << 24 | (bytes[1] as u32) << 16 | (bytes[2] as u32) << 8 | (bytes[3] as u32)
}

/// `byteorder`'s `BigEndian::write_u64`: the first eight bytes of `buf` become
/// the big-endian form of `n` and the rest of `buf` is left as it was. The
/// call panics on a shorter buffer, which the precondition rules out.
pub assume_specification[ <BigEndian as ByteOrder>::write_u64 ](buf: &mut [u8], n: u64)
    requires
        old(buf)@.len() >= 8,
    ensures
        final(buf)@ == be_bytes_u64(n) + old(buf)@.skip(8),
;

/// `byteorder`'s `BigEndian::write_u32`: the first four bytes of `buf` become
/// the big-endian form of `n` and the rest of `buf` is left as it was. The
/// call panics on a shorter buffer, which the precondition rules out.
pub assume_specification[ <BigEndian as ByteOrder>::write_u32 ](buf: &mut [u8], n: u32)
    requires
        old(buf)@.len() >= 4,
    ensures
        final(buf)@ == be_bytes_u32(n) + old(buf)@.skip(4),
;

/// `byteorder`'s `BigEndian::read_u64`: the integer held big-endian in the
/// first eight bytes of `buf`. The call panics on a shorter buffer, which the
/// precondition rules out.
pub assume_specification[ <BigEndian as ByteOrder>::read_u64 ](buf: &[u8]) -> (n: u64)
    requires
        buf@.len() >= 8,
    ensures
        n == be_u64(buf@),
;

/// `byteorder`'s `BigEndian::read_u32`: the integer held big-endian in the
/// first four bytes of `buf`. The call panics on a shorter buffer, which the
/// precondition rules out.
pub assume_specification[ <BigEndian as ByteOrder>::read_u32 ](buf: &[u8]) -> (n: u32)
    requires
        buf@.len() >= 4,
    ensures
        n == be_u32(buf@),
;

/// Reading a 64-bit integer back from its big-endian bytes gives the integer,
/// whatever follows the eight bytes.
pub proof fn lemma_be_u64_round_trip(n: u64, rest: Seq<u8>)
    ensures
        be_u64(be_bytes_u64(n) + rest) == n,
{
    assert((((n >> 56) as u8) as u64) << 56 | ((((n >> 48) & 0xff) as u8) as u64) << 48 | ((((n
        >> 40) & 0xff) as u8) as u64) << 40 | ((((n >> 32) & 0xff) as u8) as u64) << 32 | ((((n
        >> 24) & 0xff) as u8) as u64) << 24 | ((((n >> 16) & 0xff) as u8) as u64) << 16 | ((((n
        >> 8) & 0xff) as u8) as u64) << 8 | (((n & 0xff) as u8) as u64) == n) by (bit_vector);
}

/// Reading a 32-bit integer back from its big-endian bytes gives the integer,
/// whatever follows the four bytes.
pub proof fn lemma_be_u32_round_trip(n: u32, rest: Seq<u8>)
    ensures
        be_u32(be_bytes_u32(n) + rest) == n,
{
    assert((((n >> 24) as u8) as u32) << 24 | ((((n >> 16) & 0xff) as u8) as u32) << 16 | ((((n
        >> 8) & 0xff) as u8) as u32) << 8 | (((n & 0xff) as u8) as u32) == n) by (bit_vector);
}

} // verus!
