//! The streaming hasher: a running digest and a byte count, fed in chunks
//! and closed by one mix with the count.

use crate::digest::{_wyhash, digest, hash, lemma_length_word_adds, length_word, P0, P1};
use crate::mixer::{mix, wymix};
use core::hash::{BuildHasher, Hasher};
use vstd::prelude::*;

verus! {

/// What a hasher holds, as plain values.
pub struct HasherState {
    /// The seed at first, then the digest of each chunk under the value
    /// before it.
    pub accumulated_mix: u64,
    /// The number of bytes written so far, modulo two to the power 64.
    pub total_bytes_consumed: u64,
}

/// The state of a hasher made with `seed`.
pub open spec fn state_with_seed(seed: u64) -> HasherState {
    HasherState { accumulated_mix: seed, total_bytes_consumed: 0 }
}

/// The state after writing one chunk. A chunk with bytes in it replaces the
/// running mix by the digest of the chunk seeded with that mix, and adds its
/// length to the count. An empty chunk XORs the running mix with the first
/// salt and leaves the count alone.
pub open spec fn state_after_write(state: HasherState, bytes: Seq<u8>) -> HasherState {
    if bytes.len() > 0 {
        HasherState {
            accumulated_mix: digest(bytes, state.accumulated_mix),
            total_bytes_consumed: length_word(state.total_bytes_consumed as nat + bytes.len()),
        }
    } else {
        HasherState {
            accumulated_mix: state.accumulated_mix ^ P0,
            total_bytes_consumed: state.total_bytes_consumed,
        }
    }
}

/// The hash that a state stands for: its running mix, mixed with its count.
pub open spec fn state_finish(state: HasherState) -> u64 {
    mix(P1 ^ state.total_bytes_consumed, state.accumulated_mix)
}

/// One write of a chunk with bytes in it, to a fresh hasher, gives the hash of
/// that chunk under the hasher's seed. An empty chunk is left out: writing it
/// salts the seed once, while hashing it mixes twice.
pub proof fn lemma_single_write_is_one_shot(bytes: Seq<u8>, seed: u64)
    requires
        bytes.len() > 0,
    ensures
        state_finish(state_after_write(state_with_seed(seed), bytes)) == hash(bytes, seed),
{
}

/// What a fresh hasher gives after one empty chunk, beside the hash of the
/// empty input: the first mixes the salted seed once, the second twice.
pub proof fn lemma_empty_write(seed: u64)
    ensures
        state_finish(state_after_write(state_with_seed(seed), Seq::<u8>::empty())) == mix(
            P1 ^ 0,
            seed ^ P0,
        ),
        hash(Seq::<u8>::empty(), seed) == mix(P1 ^ 0, mix(0 ^ P1, 0 ^ (seed ^ P0))),
{
}

/// Two writes are not one write of the two chunks joined. Each chunk is
/// digested on its own, the second seeded with the digest of the first; only
/// the byte counts add up. The hash of the joined chunks digests them as a
/// whole, and is mixed with the same count.
pub proof fn lemma_two_writes(first: Seq<u8>, second: Seq<u8>, seed: u64)
    requires
        first.len() > 0,
        second.len() > 0,
    ensures
        state_finish(
            state_after_write(state_after_write(state_with_seed(seed), first), second),
        ) == mix(
            P1 ^ length_word(first.len() + second.len()),
            digest(second, digest(first, seed)),
        ),
        hash(first + second, seed) == mix(
            P1 ^ length_word(first.len() + second.len()),
            digest(first + second, seed),
        ),
{
    lemma_length_word_adds(first.len(), second.len());
    assert((first + second).len() == first.len() + second.len());
}

/// The streaming hasher. It is also its own builder: as a builder it hands out
/// hashers with seed zero.
#[derive(Clone, Copy)]
pub struct WyHash {
    h: u64,
    size: u64,
}

impl View for WyHash {
    type V = HasherState;

    closed spec fn view(&self) -> HasherState {
        HasherState { accumulated_mix: self.h, total_bytes_consumed: self.size }
    }
}

impl WyHash {
    /// A hasher that starts from `seed` and has seen no bytes.
    pub fn with_seed(seed: u64) -> (hasher: Self)
        ensures
            hasher@ == state_with_seed(seed),
    {
        WyHash { h: seed, size: 0 }
    }
}

impl Default for WyHash {
    /// The hasher with seed zero.
    fn default() -> (hasher: Self)
        ensures
            hasher@ == state_with_seed(0),
    {
        WyHash { h: 0, size: 0 }
    }
}

impl Hasher for WyHash {
    /// The hash of what was written so far. The hasher is left as it is and
    /// can be written to again.
    fn finish(&self) -> (r: u64)
        ensures
            r == state_finish(self@),
    {
        wymix(P1 ^ self.size, self.h)
    }

    /// Feeds one chunk to the hasher.
    fn write(&mut self, bytes: &[u8])
        ensures
            final(self)@ == state_after_write(old(self)@, bytes@),
    {
        if !bytes.is_empty() {
            self.h = _wyhash(bytes, self.h);
            self.size = self.size.wrapping_add(bytes.len() as u64);
        } else {
            self.h ^= P0;
        }
    }
}

impl BuildHasher for WyHash {
    type Hasher = WyHash;

    /// A fresh hasher with seed zero, whatever this one holds.
    fn build_hasher(&self) -> (hasher: WyHash)
        ensures
            hasher@ == state_with_seed(0),
    {
        WyHash::with_seed(0)
    }
}

} // verus!
