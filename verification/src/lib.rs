//! A probabilistic set-membership structure (Bloom filter).
//!
//! The structure answers "has this element possibly been seen before?" with
//! a bounded false-positive probability and no false negatives, storing only
//! a fixed array of boolean flags. Probe positions are derived by a two-stage
//! hash: a structural hash of the element, then a positional murmur3 mix
//! seeded by the probe number.

use vstd::prelude::*;

pub mod filter;
pub mod hashing;

pub use filter::BloomFilter;

verus! {

/// The single failure mode of the structure: the hashing subsystem failed to
/// produce a usable digest. It is never recovered internally; every operation
/// surfaces it to the caller.
#[derive(Debug, Clone, Copy, PartialEq, Eq, Structural)]
pub enum BloomFilterError {
    HashError,
}

} // verus!
