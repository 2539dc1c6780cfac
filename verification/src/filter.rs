//! The Bloom filter proper: a fixed-length bit store plus the insert and
//! query operations, stated over the probe indices of `crate::hashing`.

use vstd::prelude::*;
use core::hash::Hash;
use core::marker::PhantomData;

verus! {

use crate::BloomFilterError;
use crate::hashing::{mix128, probe_index, probe_slot, raw_probe, structural_hash};

/// Pointwise ordering of two bit stores of equal length: every flag set in
/// `a` is still set in `b`. Inserts only ever move flags this way.
pub open spec fn bits_le(a: Seq<bool>, b: Seq<bool>) -> bool {
    &&& a.len() == b.len()
    &&& forall|j: int| #![trigger a[j]] #![trigger b[j]] 0 <= j < a.len() && a[j] ==> b[j]
}

/// All `k` probe slots of stage-one word `word` hold a set flag in `bits`.
/// This is exactly the verdict a query reports for that word.
pub open spec fn all_probes_set(bits: Seq<bool>, word: u64, k: usize) -> bool {
    forall|i: usize|
        #![trigger probe_index(word, i, bits.len())]
        i < k ==> bits[probe_index(word, i, bits.len()) as int]
}

/// Slot `j` is one of the `k` probe slots of stage-one word `word` in a bit
/// store of length `cap`.
pub open spec fn is_probe_slot(word: u64, k: usize, cap: nat, j: int) -> bool {
    exists|i: usize| #![trigger probe_index(word, i, cap)] i < k && probe_index(word, i, cap) == j
}

/// How one insert for stage-one word `word` relates the bit store before
/// (`pre`) to the bit store after (`post`): only probe slots of `word` are
/// newly set, and on success every one of its `k` probe slots is set. The
/// relation also covers a failed insert — slots already set are kept, which
/// is sound: a partial insert can only ever cause a false positive, never a
/// false negative — though with this mixing hash an insert never fails.
pub open spec fn insert_outcome(
    pre: Seq<bool>,
    post: Seq<bool>,
    word: u64,
    k: usize,
    r: Result<(), BloomFilterError>,
) -> bool {
    &&& forall|j: int|
        #![trigger post[j]]
        0 <= j < post.len() && post[j] && !pre[j] ==> is_probe_slot(word, k, post.len(), j)
    &&& r is Ok ==> all_probes_set(post, word, k)
}

/// The number of set flags in a bit store: the filter's saturation.
pub open spec fn count_true(s: Seq<bool>) -> nat
    decreases s.len(),
{
    if s.len() == 0 {
        0
    } else {
        count_true(s.drop_last()) + (if s.last() {
            1nat
        } else {
            0nat
        })
    }
}

/// A probabilistic set-membership structure. It stores no element values:
/// only a fixed array of `capacity` boolean flags, all false at creation,
/// of which each insert sets `probe_count` positions derived from the
/// element's hash. Queries may report a false positive, never a false
/// negative.
pub struct BloomFilter<T: Hash> {
    elements: Vec<bool>,
    num_hash_functions: usize,
    phantom: PhantomData<T>,
}

impl<T: Hash> BloomFilter<T> {
    /// The bit store, abstractly: one flag per slot.
    pub closed spec fn bits(&self) -> Seq<bool> {
        self.elements@
    }

    /// The number of addressable slots, fixed at construction.
    pub closed spec fn capacity(&self) -> nat {
        self.elements@.len()
    }

    /// The number of bit positions touched per element, fixed at
    /// construction.
    pub closed spec fn probe_count(&self) -> usize {
        self.num_hash_functions
    }

    /// Well-formedness: at least one slot and at least one probe per
    /// element. Construction establishes it; every operation preserves it.
    pub open spec fn wf(&self) -> bool {
        &&& self.capacity() >= 1
        &&& self.probe_count() >= 1
        &&& self.bits().len() == self.capacity()
    }

    /// Creates a filter with `size` slots, all flags false, probing
    /// `num_hash_fns` positions per element.
    pub fn new(size: usize, num_hash_fns: usize) -> (filter: Self)
        requires
            size >= 1,
            num_hash_fns >= 1,
        ensures
            filter.wf(),
            filter.capacity() == size,
            filter.probe_count() == num_hash_fns,
            forall|j: int| 0 <= j < size ==> !filter.bits()[j],
    {
        BloomFilter { elements: vec![false; size], num_hash_functions: num_hash_fns, phantom: PhantomData }
    }

    /// The raw positional hash of `element` at probe number `index`: the
    /// murmur3 mix of the element's stage-one word, truncated to the machine
    /// word but not yet reduced modulo the capacity. Never fails: the mixing
    /// hash cannot fail on an in-memory word, though `HashError` remains the
    /// declared failure surface.
    pub fn hash(&self, element: &T, index: usize) -> (r: Result<usize, BloomFilterError>)
        ensures
            r is Ok,
            r matches Ok(raw) ==> exists|word: u64|
                raw == (#[trigger] mix128(word, index as u32)) as usize,
    {
        let word = structural_hash(element);
        match raw_probe(word, index) {
            Some(raw) => Ok(raw),
            None => Err(BloomFilterError::HashError),
        }
    }

    /// Sets every probe slot of stage-one word `word`; probes already set
    /// stay set. Always succeeds: each probe derivation is a mix of the
    /// in-memory word, which cannot fail.
    pub fn add_hashed(&mut self, word: u64) -> (r: Result<(), BloomFilterError>)
        requires
            old(self).wf(),
        ensures
            r is Ok,
            final(self).wf(),
            final(self).capacity() == old(self).capacity(),
            final(self).probe_count() == old(self).probe_count(),
            bits_le(old(self).bits(), final(self).bits()),
            insert_outcome(
                old(self).bits(),
                final(self).bits(),
                word,
                old(self).probe_count(),
                r,
            ),
    {
        let cap = self.elements.len();
        let k = self.num_hash_functions;
        let mut i: usize = 0;
        while i < k
            invariant
                old(self).wf(),
                self.num_hash_functions == k == old(self).probe_count(),
                self.elements@.len() == cap == old(self).capacity(),
                i <= k,
                bits_le(old(self).bits(), self.bits()),
                forall|j: int|
                    #![trigger self.bits()[j]]
                    0 <= j < cap && self.bits()[j] && !old(self).bits()[j] ==> is_probe_slot(
                        word,
                        k,
                        cap as nat,
                        j,
                    ),
                forall|p: usize|
                    #![trigger probe_index(word, p, cap as nat)]
                    p < i ==> self.bits()[probe_index(word, p, cap as nat) as int],
            decreases k - i,
        {
            match probe_slot(word, i, cap) {
                Ok(slot) => {
                    self.elements.set(slot, true);
                },
                Err(e) => {
                    return Err(e);
                },
            }
            i = i + 1;
        }
        Ok(())
    }

    /// Reads every probe slot of stage-one word `word` and reports whether
    /// all of them are set: the query verdict for that word. Always
    /// succeeds, so two calls without an intervening insert return the same
    /// verdict.
    pub fn check_hashed(&self, word: u64) -> (r: Result<bool, BloomFilterError>)
        requires
            self.wf(),
        ensures
            r is Ok,
            r matches Ok(verdict) ==> verdict == all_probes_set(
                self.bits(),
                word,
                self.probe_count(),
            ),
    {
        let cap = self.elements.len();
        let k = self.num_hash_functions;
        let mut i: usize = 0;
        while i < k
            invariant
                self.wf(),
                self.num_hash_functions == k,
                self.elements@.len() == cap,
                i <= k,
                forall|p: usize|
                    #![trigger probe_index(word, p, cap as nat)]
                    p < i ==> self.bits()[probe_index(word, p, cap as nat) as int],
            decreases k - i,
        {
            match probe_slot(word, i, cap) {
                Ok(slot) => {
                    if !self.elements[slot] {
                        assert(!all_probes_set(self.bits(), word, self.probe_count()));
                        return Ok(false);
                    }
                },
                Err(e) => {
                    return Err(e);
                },
            }
            i = i + 1;
        }
        Ok(true)
    }

    /// Inserts `el`: sets the probe slot of each of the element's
    /// `probe_count` probes. Always succeeds: no probe derivation can fail
    /// on the element's in-memory stage-one word, though `HashError` remains
    /// the declared failure surface.
    pub fn add_element(&mut self, el: T) -> (r: Result<(), BloomFilterError>)
        requires
            old(self).wf(),
        ensures
            r is Ok,
            final(self).wf(),
            final(self).capacity() == old(self).capacity(),
            final(self).probe_count() == old(self).probe_count(),
            bits_le(old(self).bits(), final(self).bits()),
            exists|word: u64|
                #[trigger] insert_outcome(
                    old(self).bits(),
                    final(self).bits(),
                    word,
                    old(self).probe_count(),
                    r,
                ),
    {
        let word = structural_hash(&el);
        self.add_hashed(word)
    }

    /// Queries for `el`: reads the probe slot of each of the element's
    /// `probe_count` probes. `Ok(false)` means the element was definitely
    /// never inserted; `Ok(true)` means it was possibly inserted. Always
    /// succeeds: no probe derivation can fail on the element's in-memory
    /// stage-one word.
    pub fn check_for(&self, el: T) -> (r: Result<bool, BloomFilterError>)
        requires
            self.wf(),
        ensures
            r is Ok,
            r matches Ok(verdict) ==> exists|word: u64|
                verdict == #[trigger] all_probes_set(self.bits(), word, self.probe_count()),
            r == Ok::<bool, BloomFilterError>(true) ==> exists|j: int|
                0 <= j < self.bits().len() && #[trigger] self.bits()[j],
    {
        let word = structural_hash(&el);
        let r = self.check_hashed(word);
        proof {
            if r == Ok::<bool, BloomFilterError>(true) {
                let j = probe_index(word, 0, self.bits().len());
                assert(self.bits()[j as int]);
            }
        }
        r
    }

    /// The number of set flags in the bit store: the filter's saturation,
    /// which drives the false-positive probability upward as it grows.
    pub fn set_bit_count(&self) -> (count: usize)
        ensures
            count == count_true(self.bits()),
    {
        let len = self.elements.len();
        let mut count: usize = 0;
        let mut i: usize = 0;
        while i < len
            invariant
                self.elements@.len() == len,
                i <= len,
                count <= i,
                count == count_true(self.bits().take(i as int)),
            decreases len - i,
        {
            proof {
                lemma_count_true_take_step(self.bits(), i as int);
            }
            if self.elements[i] {
                count = count + 1;
            }
            i = i + 1;
        }
        proof {
            assert(self.bits().take(len as int) =~= self.bits());
        }
        count
    }
}

/// Counting the set flags of one more slot: the count over the first
/// `i + 1` slots is the count over the first `i`, plus one when slot `i`
/// is set.
proof fn lemma_count_true_take_step(s: Seq<bool>, i: int)
    requires
        0 <= i < s.len(),
    ensures
        count_true(s.take(i + 1)) == count_true(s.take(i)) + (if s[i] {
            1nat
        } else {
            0nat
        }),
{
    assert(s.take(i + 1).drop_last() =~= s.take(i));
    assert(s.take(i + 1).last() == s[i]);
}

/// No false negatives: once an insert has set every probe slot of a
/// stage-one word, the query verdict for that word is positive, and stays
/// positive however many further inserts follow, since inserts only ever
/// set flags.
pub proof fn lemma_no_false_negative(inserted: Seq<bool>, later: Seq<bool>, word: u64, k: usize)
    requires
        inserted.len() >= 1,
        all_probes_set(inserted, word, k),
        bits_le(inserted, later),
    ensures
        all_probes_set(later, word, k),
{
    assert forall|i: usize| i < k implies later[probe_index(word, i, later.len()) as int] by {
        let j = probe_index(word, i, inserted.len());
        assert(j < inserted.len());
        assert(inserted[j as int]);
    }
}

/// Emptiness: in a bit store with every flag false — a freshly constructed
/// filter — no stage-one word has all its probe slots set, so every query
/// verdict is negative.
pub proof fn lemma_fresh_filter_rejects(bits: Seq<bool>, word: u64, k: usize)
    requires
        bits.len() >= 1,
        k >= 1,
        forall|j: int| 0 <= j < bits.len() ==> !bits[j],
    ensures
        !all_probes_set(bits, word, k),
{
    let j = probe_index(word, 0, bits.len());
    assert(j < bits.len());
    assert(!bits[j as int]);
}

/// Determinism: the query verdict is a function of the bit store, the
/// stage-one word and the probe count alone, so two queries for the same
/// word without an intervening insert report the same verdict.
pub proof fn lemma_query_deterministic(
    bits: Seq<bool>,
    word: u64,
    k: usize,
    first: bool,
    second: bool,
)
    requires
        first == all_probes_set(bits, word, k),
        second == all_probes_set(bits, word, k),
    ensures
        first == second,
{
}

/// Monotonic saturation: when inserts only ever set flags, the number of
/// set flags never decreases over the filter's lifetime.
pub proof fn lemma_saturation_monotone(pre: Seq<bool>, post: Seq<bool>)
    requires
        bits_le(pre, post),
    ensures
        count_true(pre) <= count_true(post),
    decreases pre.len(),
{
    if pre.len() > 0 {
        let a = pre.drop_last();
        let b = post.drop_last();
        assert forall|j: int| 0 <= j < a.len() && a[j] implies b[j] by {
            assert(a[j] == pre[j]);
            assert(b[j] == post[j]);
        }
        lemma_saturation_monotone(a, b);
        assert(pre.last() ==> post.last());
    }
}

} // verus!
