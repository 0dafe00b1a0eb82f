//! Signed 32-bit numbers as four bytes, least significant byte first.

use vstd::prelude::*;

verus! {

/// The two's complement bit pattern of `x`, read as a number from 0 up to,
/// not including, 2^32.
pub open spec fn bit_pattern(x: i32) -> int {
    if x < 0 {
        x + 0x1_0000_0000
    } else {
        x as int
    }
}

/// The four bytes that stand for `x`: the digits of its bit pattern to the
/// base 256, the lowest first.
pub open spec fn le_bytes(x: i32) -> Seq<u8> {
    let u = bit_pattern(x);
    seq![
        (u % 0x100) as u8,
        (u / 0x100 % 0x100) as u8,
        (u / 0x1_0000 % 0x100) as u8,
        (u / 0x100_0000 % 0x100) as u8,
    ]
}

/// The number that the first four bytes of `bytes` stand for.
pub open spec fn le_value(bytes: Seq<u8>) -> i32
    recommends
        bytes.len() >= 4,
{
    let u = bytes[0] + 0x100 * bytes[1] + 0x1_0000 * bytes[2] + 0x100_0000 * bytes[3];
    if u >= 0x8000_0000 {
        (u - 0x1_0000_0000) as i32
    } else {
        u as i32
    }
}

/// A number written as bytes and read again is the same number.
pub proof fn lemma_value_of_bytes(x: i32)
    ensures
        le_bytes(x).len() == 4,
        le_value(le_bytes(x)) == x,
{
}

/// Four bytes read as a number and written again are the same bytes.
pub proof fn lemma_bytes_of_value(bytes: Seq<u8>)
    requires
        bytes.len() == 4,
    ensures
        le_bytes(le_value(bytes)) == bytes,
{
    let high: int = bytes[2] + 0x100 * bytes[3];
    let middle: int = bytes[1] + 0x100 * high;
    let u: int = bytes[0] + 0x100 * middle;
    assert(bit_pattern(le_value(bytes)) == u);
    assert(u / 0x100 == middle && u % 0x100 == bytes[0]);
    assert(u / 0x1_0000 == high && middle % 0x100 == bytes[1]);
    assert(u / 0x100_0000 == bytes[3] && high % 0x100 == bytes[2]);
    assert(le_bytes(le_value(bytes)) =~= bytes);
}

/// The bytes of `x`, as `i32::to_le_bytes` gives them.
pub(crate) fn to_le_bytes(x: i32) -> (r: [u8; 4])
    ensures
        r@ == le_bytes(x),
{
    let u: i64 = if x < 0 {
        x as i64 + 0x1_0000_0000
    } else {
        x as i64
    };
    [
        (u % 0x100) as u8,
        (u / 0x100 % 0x100) as u8,
        (u / 0x1_0000 % 0x100) as u8,
        (u / 0x100_0000 % 0x100) as u8,
    ]
}

/// The number in the four bytes of `bytes` from `offset` on.
pub(crate) fn from_le_bytes(bytes: &[u8], offset: usize) -> (r: i32)
    requires
        offset + 4 <= bytes@.len(),
    ensures
        r == le_value(bytes@.subrange(offset as int, offset + 4)),
{
    let u: i64 = bytes[offset] as i64 + 0x100 * (bytes[offset + 1] as i64) + 0x1_0000 * (
    bytes[offset + 2] as i64) + 0x100_0000 * (bytes[offset + 3] as i64);
    if u >= 0x8000_0000 {
        (u - 0x1_0000_0000) as i32
    } else {
        u as i32
    }
}

} // verus!
