//! The multiply-and-fold primitive that every stage of the hash rests on.

use vstd::prelude::*;

verus! {

/// Two to the power 64, the modulus of a 64-bit word.
pub open spec fn word_modulus() -> int {
    0x1_0000_0000_0000_0000
}

/// The low 64 bits of the full 128-bit product of `a` and `b`.
pub open spec fn product_low(a: u64, b: u64) -> u64 {
    ((a as int * b as int) % word_modulus()) as u64
}

/// The high 64 bits of the full 128-bit product of `a` and `b`.
pub open spec fn product_high(a: u64, b: u64) -> u64 {
    ((a as int * b as int) / word_modulus()) as u64
}

/// The mix of two words: the two halves of their 128-bit product, XORed.
pub open spec fn mix(a: u64, b: u64) -> u64 {
    product_low(a, b) ^ product_high(a, b)
}

/// The product of two 64-bit words fits in 128 bits, and its halves fit in 64.
pub proof fn lemma_product_bounds(a: u64, b: u64)
    ensures
        0 <= a as int * b as int <= u128::MAX,
        0 <= (a as int * b as int) % word_modulus() <= u64::MAX,
        0 <= (a as int * b as int) / word_modulus() <= u64::MAX,
{
    assert(0 <= a as int * b as int <= 0xffff_ffff_ffff_ffff * 0xffff_ffff_ffff_ffff)
        by (nonlinear_arith);
}

/// Replaces `a` by the low half and `b` by the high half of the 128-bit
/// product of the two values they held.
pub fn wymum(a: &mut u64, b: &mut u64)
    ensures
        *final(a) == product_low(*old(a), *old(b)),
        *final(b) == product_high(*old(a), *old(b)),
{
    let x: u128 = *a as u128;
    let y: u128 = *b as u128;
    proof {
        lemma_product_bounds(*a, *b);
    }
    let r: u128 = x * y;
    let lo: u64 = (r & 0xffff_ffff_ffff_ffff) as u64;
    let hi: u64 = (r >> 64) as u64;
    proof {
        assert(r & 0xffff_ffff_ffff_ffff == r % 0x1_0000_0000_0000_0000) by (bit_vector);
        assert(r >> 64 == r / 0x1_0000_0000_0000_0000) by (bit_vector);
    }
    *a = lo;
    *b = hi;
}

/// Mixes two words into one.
pub fn wymix(a: u64, b: u64) -> (r: u64)
    ensures
        r == mix(a, b),
{
    let mut lo: u64 = a;
    let mut hi: u64 = b;
    wymum(&mut lo, &mut hi);
    lo ^ hi
}

} // verus!
