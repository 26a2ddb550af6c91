//! Little-endian integers and the byteorder calls that read and write them.

use byteorder::{ByteOrder, LittleEndian, WriteBytesExt};
use vstd::prelude::*;

verus! {

/// `std::io::Error`, the error that byteorder's writers hand back.
#[verifier::external_type_specification]
#[verifier::external_body]
pub struct ExIoError(std::io::Error);

/// The four little-endian bytes of `n` (two's complement).
pub open spec fn i32_le_bytes(n: i32) -> Seq<u8> {
    let u = n as u32;
    seq![(u & 0xff) as u8, ((u >> 8) & 0xff) as u8, ((u >> 16) & 0xff) as u8, ((u >> 24) & 0xff) as u8]
}

/// The `i32` whose little-endian encoding is `b0 b1 b2 b3`.
pub open spec fn i32_from_le(b0: u8, b1: u8, b2: u8, b3: u8) -> i32 {
    ((b0 as u32) | ((b1 as u32) << 8) | ((b2 as u32) << 16) | ((b3 as u32) << 24)) as i32
}

/// The `i32` stored little-endian in the first four bytes of `b`.
pub open spec fn i32_from_le_bytes(b: Seq<u8>) -> i32 {
    i32_from_le(b[0], b[1], b[2], b[3])
}

/// Decoding the encoding of an `i32` gives the `i32` back.
pub proof fn lemma_i32_le_value_roundtrip(n: i32)
    ensures
        i32_le_bytes(n).len() == 4,
        i32_from_le_bytes(i32_le_bytes(n)) == n,
{
    let u = n as u32;
    let b0 = (u & 0xff) as u8;
    let b1 = ((u >> 8) & 0xff) as u8;
    let b2 = ((u >> 16) & 0xff) as u8;
    let b3 = ((u >> 24) & 0xff) as u8;
    assert(i32_from_le(b0, b1, b2, b3) == n) by (bit_vector)
        requires
            u == n as u32,
            b0 == (u & 0xff) as u8,
            b1 == ((u >> 8) & 0xff) as u8,
            b2 == ((u >> 16) & 0xff) as u8,
            b3 == ((u >> 24) & 0xff) as u8,
    ;
}

/// Encoding the `i32` decoded from four bytes gives those bytes back.
pub proof fn lemma_i32_le_bytes_roundtrip(b: Seq<u8>)
    requires
        b.len() >= 4,
    ensures
        i32_le_bytes(i32_from_le_bytes(b)) == b.take(4),
{
    let (b0, b1, b2, b3) = (b[0], b[1], b[2], b[3]);
    let n = i32_from_le(b0, b1, b2, b3);
    let u = n as u32;
    assert((u & 0xff) as u8 == b0 && ((u >> 8) & 0xff) as u8 == b1 && ((u >> 16) & 0xff) as u8
        == b2 && ((u >> 24) & 0xff) as u8 == b3) by (bit_vector)
        requires
            n == i32_from_le(b0, b1, b2, b3),
            u == n as u32,
    ;
    assert(i32_le_bytes(n) =~= b.take(4));
}

/// Four stored bytes as a number: base-256 digits, least significant first,
/// read in two's complement (a last byte of 128 or more makes it negative).
pub proof fn lemma_i32_from_le_value(b0: u8, b1: u8, b2: u8, b3: u8)
    ensures
        b3 < 128 ==> i32_from_le(b0, b1, b2, b3) == b0 + 256 * b1 + 65536 * b2 + 16777216 * b3,
        b3 >= 128 ==> i32_from_le(b0, b1, b2, b3) == b0 + 256 * b1 + 65536 * b2 + 16777216 * b3
            - 4294967296,
{
    assert(b3 < 128 ==> i32_from_le(b0, b1, b2, b3) == b0 + 256 * b1 + 65536 * b2 + 16777216 * b3)
        by (bit_vector);
    assert(b3 >= 128 ==> i32_from_le(b0, b1, b2, b3) == b0 + 256 * b1 + 65536 * b2 + 16777216 * b3
        - 4294967296) by (bit_vector);
}

/// A non-negative `i32` is stored as its base-256 digits, least significant
/// first.
pub proof fn lemma_i32_le_bytes_value(n: i32)
    requires
        n >= 0,
    ensures
        i32_le_bytes(n) == seq![
            (n % 256) as u8,
            ((n / 256) % 256) as u8,
            ((n / 65536) % 256) as u8,
            (n / 16777216) as u8,
        ],
{
    let u = n as u32;
    assert((u & 0xff) as u8 == (n % 256) as u8 && ((u >> 8) & 0xff) as u8 == ((n / 256) % 256) as u8
        && ((u >> 16) & 0xff) as u8 == ((n / 65536) % 256) as u8 && ((u >> 24) & 0xff) as u8 == (n
        / 16777216) as u8) by (bit_vector)
        requires
            n >= 0,
            u == n as u32,
    ;
    assert(i32_le_bytes(n) =~= seq![
        (n % 256) as u8,
        ((n / 256) % 256) as u8,
        ((n / 65536) % 256) as u8,
        (n / 16777216) as u8,
    ]);
}

/// Reads an `i32` with byteorder's `LittleEndian::read_i32` from the four
/// bytes of `data` that start at `pos`. byteorder decodes them as
/// `u32::from_le_bytes` and reinterprets the result as an `i32`, which is what
/// the contract states; it panics on fewer than four bytes, which `requires`
/// rules out.
#[verifier::external_body]
pub(crate) fn read_i32_le(data: &[u8], pos: usize) -> (r: i32)
    requires
        pos + 4 <= data@.len(),
    ensures
        r == i32_from_le_bytes(data@.subrange(pos as int, pos + 4)),
{
    LittleEndian::read_i32(&data[pos..pos + 4])
}

/// Writes one byte with byteorder's `WriteBytesExt::write_u8`, which hands the
/// byte to `Write::write_all`. std implements `Write` for `Vec<u8>` by
/// appending to the vector, growing it as needed, so the call succeeds and
/// appends exactly `n`, which is what the contract claims.
#[verifier::external_body]
pub(crate) fn write_u8_to(buf: &mut Vec<u8>, n: u8) -> (r: Result<(), std::io::Error>)
    ensures
        r is Ok,
        final(buf)@ == old(buf)@.push(n),
{
    buf.write_u8(n)
}

/// Writes an `i32` with byteorder's `WriteBytesExt::write_i32::<LittleEndian>`,
/// which encodes `n as u32` with `to_le_bytes` and hands the four bytes to
/// `Write::write_all`. std implements `Write` for `Vec<u8>` by appending to
/// the vector, growing it as needed, so the call succeeds and appends exactly
/// those bytes, which is what the contract claims.
#[verifier::external_body]
pub(crate) fn write_i32_le_to(buf: &mut Vec<u8>, n: i32) -> (r: Result<(), std::io::Error>)
    ensures
        r is Ok,
        final(buf)@ == old(buf)@ + i32_le_bytes(n),
{
    buf.write_i32::<LittleEndian>(n)
}

} // verus!
