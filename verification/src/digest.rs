//! The one-shot digest: five strategies chosen by the length of the input,
//! each chaining the mixer over words read from it.
//!
//! The digest format is fixed: words are little-endian, and an input longer
//! than sixteen bytes ends with the two words that cover its last sixteen
//! bytes.

use crate::mixer::{mix, wymix};
use crate::reader::{as_array_4, as_array_8, le_value, packed_triple, wyr3, wyr4, wyr8};
use vstd::prelude::*;

verus! {

/// The salt that the seed is XORed with before anything is read.
pub const P0: u64 = 0xa076_1d64_78bd_642f;

/// The salt of the first word of every block of the first lane, and of the
/// two closing mixes.
pub const P1: u64 = 0xe703_7ed1_a0b4_28db;

/// The salt of the second lane of the 48-byte stride.
pub const P2: u64 = 0x8ebc_6af0_9c88_c6e3;

/// The salt of the third lane of the 48-byte stride.
pub const P3: u64 = 0x5899_65cc_7537_4cc3;

/// The 64-bit word that the eight bytes from `at` on spell.
pub open spec fn word_at(bytes: Seq<u8>, at: int) -> u64 {
    le_value(bytes.subrange(at, at + 8)) as u64
}

/// The 32-bit word that the four bytes from `at` on spell, widened.
pub open spec fn half_word_at(bytes: Seq<u8>, at: int) -> u64 {
    le_value(bytes.subrange(at, at + 4)) as u64
}

/// Folds the sixteen bytes from `at` on into `state`: the first word is
/// salted, the second is XORed with the state, and the two are mixed.
pub open spec fn fold_block(bytes: Seq<u8>, at: int, salt: u64, state: u64) -> u64 {
    mix(word_at(bytes, at) ^ salt, word_at(bytes, at + 8) ^ state)
}

/// The state after folding `count` blocks into `state`, the blocks standing
/// at `start`, `start + stride`, `start + 2 * stride` and so on.
pub open spec fn fold_blocks(
    bytes: Seq<u8>,
    start: int,
    stride: int,
    salt: u64,
    count: nat,
    state: u64,
) -> u64
    decreases count,
{
    if count == 0 {
        state
    } else {
        fold_block(
            bytes,
            start + stride * (count - 1),
            salt,
            fold_blocks(bytes, start, stride, salt, (count - 1) as nat, state),
        )
    }
}

/// How many 48-byte strides an input of `len` bytes gives to the three
/// lanes: as many as leave between one and 48 bytes behind, and none for an
/// input of at most 48 bytes.
pub open spec fn stride_count(len: nat) -> nat {
    if len > 48 {
        ((len - 1) / 48) as nat
    } else {
        0
    }
}

/// How many single 16-byte blocks follow the strides: as many as leave
/// between one and sixteen bytes behind.
pub open spec fn block_count(len: nat) -> nat {
    ((len - 48 * stride_count(len) - 1) / 16) as nat
}

/// The strides and the single blocks of an input longer than sixteen bytes
/// stop short of its end by one to sixteen bytes, and at most two single
/// blocks follow the strides.
pub proof fn lemma_blocks_leave_a_tail(len: nat)
    requires
        len > 16,
    ensures
        block_count(len) <= 2,
        1 <= len - 48 * stride_count(len) - 16 * block_count(len) <= 16,
        len > 48 ==> stride_count(len) >= 1,
{
}

/// The state after the 48-byte strides. An input longer than 48 bytes runs
/// three independent lanes from the same state, one block each per stride,
/// and XORs the three results; a shorter one leaves the state as it is.
pub open spec fn state_after_strides(bytes: Seq<u8>, state: u64) -> u64 {
    if bytes.len() > 48 {
        let strides = stride_count(bytes.len());
        fold_blocks(bytes, 0, 48, P1, strides, state) ^ (fold_blocks(
            bytes,
            16,
            48,
            P2,
            strides,
            state,
        ) ^ fold_blocks(bytes, 32, 48, P3, strides, state))
    } else {
        state
    }
}

/// The state with which an input longer than sixteen bytes reaches its last
/// two words: after the strides, the single blocks are folded in.
pub open spec fn bulk_state(bytes: Seq<u8>, state: u64) -> u64 {
    fold_blocks(
        bytes,
        48 * stride_count(bytes.len()) as int,
        16,
        P1,
        block_count(bytes.len()),
        state_after_strides(bytes, state),
    )
}

/// The first of the two words that enter the closing mix.
pub open spec fn first_operand(bytes: Seq<u8>) -> u64 {
    let len = bytes.len() as int;
    if len == 0 {
        0
    } else if len <= 3 {
        packed_triple(bytes, len) as u64
    } else if len <= 8 {
        half_word_at(bytes, 0)
    } else if len <= 16 {
        word_at(bytes, 0)
    } else {
        word_at(bytes, len - 16)
    }
}

/// The second of the two words that enter the closing mix.
pub open spec fn second_operand(bytes: Seq<u8>) -> u64 {
    let len = bytes.len() as int;
    if len <= 3 {
        0
    } else if len <= 8 {
        half_word_at(bytes, len - 4)
    } else {
        word_at(bytes, len - 8)
    }
}

/// The digest of a byte sequence under a seed, before the length is folded
/// in.
pub open spec fn digest(bytes: Seq<u8>, seed: u64) -> u64 {
    let salted = seed ^ P0;
    let state = if bytes.len() <= 16 {
        salted
    } else {
        bulk_state(bytes, salted)
    };
    mix(first_operand(bytes) ^ P1, second_operand(bytes) ^ state)
}

/// A byte count as a 64-bit word: the count modulo two to the power 64. No
/// slice is long enough for the two to differ.
pub open spec fn length_word(len: nat) -> u64 {
    (len % 0x1_0000_0000_0000_0000) as u64
}

/// Counting in two steps gives the same word as counting at once.
pub proof fn lemma_length_word_adds(first: nat, second: nat)
    ensures
        length_word(length_word(first) as nat + second) == length_word(first + second),
{
}

/// The hash of a byte sequence under a seed: its digest, mixed with its
/// length.
pub open spec fn hash(bytes: Seq<u8>, seed: u64) -> u64 {
    mix(P1 ^ length_word(bytes.len()), digest(bytes, seed))
}

/// The hash is a function of the bytes' values and the seed, and of nothing
/// else: two buffers that hold the same bytes have the same digest and the
/// same hash under the same seed.
pub proof fn lemma_equal_content_equal_hash(first: &[u8], second: &[u8], seed: u64)
    requires
        first@ =~= second@,
    ensures
        digest(first@, seed) == digest(second@, seed),
        hash(first@, seed) == hash(second@, seed),
{
}

/// Reads the word at `at`.
fn read_word(bytes: &[u8], at: usize) -> (r: u64)
    requires
        at + 8 <= bytes.len(),
    ensures
        r == word_at(bytes@, at as int),
{
    let window = as_array_8(&bytes[at..at + 8]);
    proof {
        crate::reader::lemma_le_value_bounds(window@);
    }
    wyr8(&window)
}

/// Reads the half word at `at`.
fn read_half_word(bytes: &[u8], at: usize) -> (r: u64)
    requires
        at + 4 <= bytes.len(),
    ensures
        r == half_word_at(bytes@, at as int),
{
    let window = as_array_4(&bytes[at..at + 4]);
    proof {
        crate::reader::lemma_le_value_bounds(window@);
    }
    wyr4(&window)
}

/// Folds the block at `at` into `state`.
fn fold(bytes: &[u8], at: usize, salt: u64, state: u64) -> (r: u64)
    requires
        at + 16 <= bytes.len(),
    ensures
        r == fold_block(bytes@, at as int, salt, state),
{
    wymix(read_word(bytes, at) ^ salt, read_word(bytes, at + 8) ^ state)
}

/// Computes the digest of `bytes` under `seed`, without the length.
pub fn _wyhash(bytes: &[u8], seed: u64) -> (r: u64)
    ensures
        r == digest(bytes@, seed),
{
    let len = bytes.len();
    let mut seed: u64 = seed ^ P0;
    let a: u64;
    let b: u64;
    if len <= 16 {
        if len <= 8 {
            if len >= 4 {
                a = read_half_word(bytes, 0);
                b = read_half_word(bytes, len - 4);
            } else if len != 0 {
                a = wyr3(bytes, len);
                b = 0;
            } else {
                a = 0;
                b = 0;
            }
        } else {
            a = read_word(bytes, 0);
            b = read_word(bytes, len - 8);
        }
    } else {
        let ghost salted = seed;
        let mut i: usize = len;
        let mut pos: usize = 0;
        if len > 48 {
            let mut see1: u64 = seed;
            let mut see2: u64 = seed;
            while i > 48
                invariant
                    len == bytes@.len(),
                    pos + i == len,
                    1 <= i,
                    pos % 48 == 0,
                    seed == fold_blocks(bytes@, 0, 48, P1, (pos / 48) as nat, salted),
                    see1 == fold_blocks(bytes@, 16, 48, P2, (pos / 48) as nat, salted),
                    see2 == fold_blocks(bytes@, 32, 48, P3, (pos / 48) as nat, salted),
                decreases i,
            {
                seed = fold(bytes, pos, P1, seed);
                see1 = fold(bytes, pos + 16, P2, see1);
                see2 = fold(bytes, pos + 32, P3, see2);
                pos += 48;
                i -= 48;
            }
            seed ^= see1 ^ see2;
        }
        let ghost strides = stride_count(len as nat);
        let ghost wide = seed;
        while i > 16
            invariant
                len == bytes@.len(),
                pos + i == len,
                1 <= i,
                pos >= 48 * strides,
                (pos - 48 * strides) % 16 == 0,
                seed == fold_blocks(
                    bytes@,
                    48 * strides as int,
                    16,
                    P1,
                    ((pos - 48 * strides) / 16) as nat,
                    wide,
                ),
            decreases i,
        {
            seed = fold(bytes, pos, P1, seed);
            pos += 16;
            i -= 16;
        }
        a = read_word(bytes, len - 16);
        b = read_word(bytes, len - 8);
    }
    wymix(a ^ P1, b ^ seed)
}

/// Computes the hash of `bytes` under `seed`.
pub fn wyhash_single(bytes: &[u8], seed: u64) -> (r: u64)
    ensures
        r == hash(bytes@, seed),
{
    let seed = _wyhash(bytes, seed);
    wymix(P1 ^ bytes.len() as u64, seed)
}

} // verus!
