//! Little-endian integers on the wire.
//!
//! The byte layout is stated here as arithmetic on the integer's value. The
//! executable conversions are done by `byteorder` and by std; their
//! contracts below are taken on trust.

use byteorder::{ByteOrder, LittleEndian};
use vstd::prelude::*;

verus! {

/// The unsigned 32-bit integer whose little-endian bytes open `bytes`.
pub open spec fn le_u32(bytes: Seq<u8>) -> int
    recommends
        bytes.len() >= 4,
{
    bytes[0] + 256 * bytes[1] + 65536 * bytes[2] + 16777216 * bytes[3]
}

/// The four little-endian bytes of `n`.
pub open spec fn le_bytes_u32(n: u32) -> Seq<u8> {
    seq![
        (n % 256) as u8,
        ((n / 256) % 256) as u8,
        ((n / 65536) % 256) as u8,
        ((n / 16777216) % 256) as u8,
    ]
}

/// The signed 16-bit integer with low byte `lo` and high byte `hi`, in two's
/// complement.
pub open spec fn le_i16(lo: u8, hi: u8) -> int {
    if hi >= 128 {
        lo + 256 * hi - 65536
    } else {
        lo + 256 * hi
    }
}

/// The two little-endian bytes of `sample`, in two's complement.
pub open spec fn le_bytes_i16(sample: i16) -> Seq<u8> {
    seq![(sample as int % 256) as u8, ((sample as int / 256) % 256) as u8]
}

/// Reading back the bytes written for an unsigned 32-bit integer gives that
/// integer.
pub proof fn lemma_le_u32_round_trip(n: u32)
    ensures
        le_bytes_u32(n).len() == 4,
        le_u32(le_bytes_u32(n)) == n,
{
}

/// Writing the integer read from four bytes gives those four bytes.
pub proof fn lemma_le_bytes_u32_round_trip(bytes: Seq<u8>)
    requires
        bytes.len() == 4,
    ensures
        0 <= le_u32(bytes) <= u32::MAX,
        le_bytes_u32(le_u32(bytes) as u32) == bytes,
{
    assert(le_bytes_u32(le_u32(bytes) as u32) =~= bytes);
}

/// Reading back the bytes written for a sample gives that sample.
pub proof fn lemma_le_i16_round_trip(sample: i16)
    ensures
        le_bytes_i16(sample).len() == 2,
        le_i16(le_bytes_i16(sample)[0], le_bytes_i16(sample)[1]) == sample,
{
}

/// Every pair of bytes reads as a sample in range, and writes back as itself.
pub proof fn lemma_le_bytes_i16_round_trip(lo: u8, hi: u8)
    ensures
        i16::MIN <= le_i16(lo, hi) <= i16::MAX,
        le_bytes_i16(le_i16(lo, hi) as i16) == seq![lo, hi],
{
    assert(le_bytes_i16(le_i16(lo, hi) as i16) =~= seq![lo, hi]);
}

/// `byteorder::LittleEndian::read_u32`: the first four bytes of `buf` read as
/// a little-endian unsigned integer. It panics on a shorter buffer.
#[verifier::external_body]
pub(crate) fn read_u32_le(buf: &[u8]) -> (n: u32)
    requires
        buf@.len() >= 4,
    ensures
        n == le_u32(buf@),
{
    LittleEndian::read_u32(buf)
}

/// `byteorder::LittleEndian::write_u32`, on a buffer of four bytes: the
/// buffer then holds the little-endian bytes of `n`.
#[verifier::external_body]
pub(crate) fn write_u32_le(n: u32) -> (bytes: [u8; 4])
    ensures
        bytes@ == le_bytes_u32(n),
{
    let mut bytes = [0u8; 4];
    LittleEndian::write_u32(&mut bytes, n);
    bytes
}

/// `byteorder::LittleEndian::read_i16`: the first two bytes of `buf` read as
/// a little-endian signed integer. It panics on a shorter buffer.
#[verifier::external_body]
pub(crate) fn read_i16_le(buf: &[u8]) -> (sample: i16)
    requires
        buf@.len() >= 2,
    ensures
        sample == le_i16(buf@[0], buf@[1]),
{
    LittleEndian::read_i16(buf)
}

/// `i16::to_le_bytes` of std: the two little-endian bytes of `sample`.
#[verifier::external_body]
pub(crate) fn i16_to_le_bytes(sample: i16) -> (bytes: [u8; 2])
    ensures
        bytes@ == le_bytes_i16(sample),
{
    sample.to_le_bytes()
}

} // verus!
