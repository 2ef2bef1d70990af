//! Byte-window readers: fixed-width little-endian extraction of three, four
//! or eight bytes, which turn raw bytes into 64-bit mixing operands.
//!
//! Every window is read in little-endian order, on every machine.

use vstd::prelude::*;

verus! {

/// The number that a byte sequence spells in little-endian order: the first
/// byte is the least significant.
pub open spec fn le_value(s: Seq<u8>) -> nat
    decreases s.len(),
{
    if s.len() == 0 {
        0
    } else {
        s[0] as nat + 256 * le_value(s.drop_first())
    }
}

/// The three-byte packing of a buffer of which `k` bytes count: the first
/// byte in bits 16 to 23, the byte at `k / 2` in bits 8 to 15, the byte at
/// `k - 1` in bits 0 to 7.
pub open spec fn packed_triple(s: Seq<u8>, k: int) -> nat {
    (65536 * s[0] + 256 * s[k / 2] + s[k - 1]) as nat
}

/// A sequence of `n` bytes spells a number below 256 to the power `n`; stated
/// here for the two widths that the readers use.
pub proof fn lemma_le_value_bounds(s: Seq<u8>)
    ensures
        s.len() == 4 ==> le_value(s) <= u32::MAX,
        s.len() == 8 ==> le_value(s) <= u64::MAX,
{
    reveal_with_fuel(le_value, 9);
}

/// Copies a slice of exactly eight bytes into an array.
pub fn as_array_8(slice: &[u8]) -> (out: [u8; 8])
    requires
        slice@.len() == 8,
    ensures
        out@ == slice@,
{
    [slice[0], slice[1], slice[2], slice[3], slice[4], slice[5], slice[6], slice[7]]
}

/// Copies a slice of exactly four bytes into an array.
pub fn as_array_4(slice: &[u8]) -> (out: [u8; 4])
    requires
        slice@.len() == 4,
    ensures
        out@ == slice@,
{
    [slice[0], slice[1], slice[2], slice[3]]
}

/// Reads eight bytes as a little-endian 64-bit integer.
pub fn wyr8(data: &[u8; 8]) -> (r: u64)
    ensures
        r == le_value(data@),
{
    let b0: u64 = data[0] as u64;
    let b1: u64 = data[1] as u64;
    let b2: u64 = data[2] as u64;
    let b3: u64 = data[3] as u64;
    let b4: u64 = data[4] as u64;
    let b5: u64 = data[5] as u64;
    let b6: u64 = data[6] as u64;
    let b7: u64 = data[7] as u64;
    proof {
        reveal_with_fuel(le_value, 9);
        assert((b0 | (b1 << 8) | (b2 << 16) | (b3 << 24) | (b4 << 32) | (b5 << 40) | (b6 << 48) | (b7
            << 56)) == b0 + 256 * (b1 + 256 * (b2 + 256 * (b3 + 256 * (b4 + 256 * (b5 + 256 * (b6
            + 256 * b7))))))) by (bit_vector)
            requires
                b0 < 256,
                b1 < 256,
                b2 < 256,
                b3 < 256,
                b4 < 256,
                b5 < 256,
                b6 < 256,
                b7 < 256,
        ;
    }
    b0 | (b1 << 8) | (b2 << 16) | (b3 << 24) | (b4 << 32) | (b5 << 40) | (b6 << 48) | (b7 << 56)
}

/// Reads four bytes as a little-endian 32-bit integer, widened to 64 bits.
pub fn wyr4(data: &[u8; 4]) -> (r: u64)
    ensures
        r == le_value(data@),
{
    let b0: u64 = data[0] as u64;
    let b1: u64 = data[1] as u64;
    let b2: u64 = data[2] as u64;
    let b3: u64 = data[3] as u64;
    proof {
        reveal_with_fuel(le_value, 5);
        assert((b0 | (b1 << 8) | (b2 << 16) | (b3 << 24)) == b0 + 256 * (b1 + 256 * (b2 + 256
            * b3))) by (bit_vector)
            requires
                b0 < 256,
                b1 < 256,
                b2 < 256,
                b3 < 256,
        ;
    }
    b0 | (b1 << 8) | (b2 << 16) | (b3 << 24)
}

/// Packs three bytes of a buffer of which `k` bytes count, `k` from one to
/// three in the hash: the first, the one at `k / 2` and the one at `k - 1`.
/// For `k` of one or two some byte is read twice.
pub fn wyr3(data: &[u8], k: usize) -> (r: u64)
    requires
        1 <= k <= data@.len(),
    ensures
        r == packed_triple(data@, k as int),
{
    let first: u64 = data[0] as u64;
    let middle: u64 = data[k / 2] as u64;
    let last: u64 = data[k - 1] as u64;
    proof {
        assert(((first << 16) | (middle << 8) | last) == 65536 * first + 256 * middle + last)
            by (bit_vector)
            requires
                first < 256,
                middle < 256,
                last < 256,
        ;
    }
    (first << 16) | (middle << 8) | last
}

} // verus!
