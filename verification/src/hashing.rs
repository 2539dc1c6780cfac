//! Probe-index derivation: the two-stage hash that maps an element and a
//! probe number to a slot of the bit store.
//!
//! Stage one condenses the element's structural content into a 64-bit word
//! with `DefaultHasher`. Stage two feeds that word's big-endian bytes into
//! murmur3 (the x64 128-bit variant), seeded with the probe number, and the
//! digest reduced modulo the bit store's length is the slot to probe.

use vstd::prelude::*;
use core::hash::{Hash, Hasher};
use std::collections::hash_map::DefaultHasher;

verus! {

use crate::BloomFilterError;

/// The 128-bit digest that murmur3's x64 128-bit variant computes from the
/// eight big-endian bytes of `word` under seed `seed`. The digest is a pure
/// function of those two arguments; nothing further is stated of its value.
pub uninterp spec fn mix128(word: u64, seed: u32) -> u128;

/// The slot of a bit store of length `cap` probed for stage-one word `word`
/// at probe number `i`: the positional murmur3 digest, truncated to the
/// machine word, reduced modulo `cap`.
pub open spec fn probe_index(word: u64, i: usize, cap: nat) -> nat
    recommends
        cap >= 1,
{
    ((mix128(word, i as u32) as usize) as nat) % cap
}

/// Index range: every probe index derived for any stage-one word and any
/// probe number lies in `[0, cap)`, since the digest is reduced modulo the
/// bit store's length.
pub proof fn lemma_probe_in_range(word: u64, i: usize, cap: nat)
    requires
        cap >= 1,
    ensures
        probe_index(word, i, cap) < cap,
{
}

/// Relies on `murmur3::murmur3_x64_128`: its digest is computed from the
/// bytes read out of the source (here the eight big-endian bytes of `word`)
/// and the seed alone, so any digest it yields equals `mix128(word, seed)`;
/// and it fails only when reading the source fails, which a cursor over
/// eight owned bytes never does, so a digest is always yielded.
#[verifier::external_body]
fn murmur3_mix(word: u64, seed: u32) -> (digest: Option<u128>)
    ensures
        digest is Some,
        digest matches Some(d) ==> d == mix128(word, seed),
{
    let mut source = std::io::Cursor::new(word.to_be_bytes());
    match murmur3::murmur3_x64_128(&mut source, seed) {
        Ok(d) => Some(d),
        Err(_) => None,
    }
}

/// Relies on `std::hash::Hash::hash`: it feeds the element's structural
/// content to the hasher. Which bytes it writes is the element type's own
/// affair, so nothing is stated of the hasher's new state.
#[verifier::external_body]
fn feed_element<T: Hash>(element: &T, state: &mut DefaultHasher) {
    element.hash(state);
}

/// Stage one of the probe derivation: the element's structural content,
/// condensed to one 64-bit word by a freshly created `DefaultHasher`.
pub fn structural_hash<T: Hash>(element: &T) -> u64 {
    let mut state = DefaultHasher::new();
    feed_element(element, &mut state);
    state.finish()
}

/// The raw positional hash for stage-one word `word` at probe number
/// `index`: the murmur3 digest truncated to the machine word, not yet
/// reduced modulo a capacity. Always yields a value: the mixing hash
/// cannot fail on an in-memory word.
pub fn raw_probe(word: u64, index: usize) -> (r: Option<usize>)
    ensures
        r is Some,
        r matches Some(raw) ==> raw == mix128(word, index as u32) as usize,
{
    let seed: u32 = #[verifier::truncate] (index as u32);
    match murmur3_mix(word, seed) {
        Some(digest) => Some(#[verifier::truncate] (digest as usize)),
        None => None,
    }
}

/// Stage two of the probe derivation: the slot probed for stage-one word
/// `word` at probe number `index`, in a bit store of `cap` slots. Never
/// fails: the mixing hash cannot fail on an in-memory word, though
/// `HashError` remains the declared failure surface.
pub fn probe_slot(word: u64, index: usize, cap: usize) -> (r: Result<
    usize,
    BloomFilterError,
>)
    requires
        cap >= 1,
    ensures
        r is Ok,
        r matches Ok(slot) ==> slot == probe_index(word, index, cap as nat) && slot < cap,
{
    match raw_probe(word, index) {
        Some(raw) => Ok(raw % cap),
        None => Err(BloomFilterError::HashError),
    }
}

} // verus!
