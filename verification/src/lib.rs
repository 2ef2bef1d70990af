//! A fast, non-cryptographic 64-bit hash over byte sequences, with a
//! streaming hasher built on the same digest.

pub mod digest;
pub mod hasher;
pub mod mixer;
pub mod reader;

pub use digest::{_wyhash, wyhash_single};
pub use hasher::WyHash;
