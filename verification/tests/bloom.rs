use bloom_filter::hashing::probe_slot;
use bloom_filter::BloomFilter;

#[test]
fn fresh_filter_rejects_everything() {
    let f: BloomFilter<i32> = BloomFilter::new(1024, 3);
    for x in [0, 1, -5, 42, 123_456] {
        assert_eq!(f.check_for(x), Ok(false));
    }
    let g: BloomFilter<String> = BloomFilter::new(512, 2);
    assert_eq!(g.check_for(String::from("anything")), Ok(false));
    assert_eq!(g.check_for(String::new()), Ok(false));
}

#[test]
fn fresh_filter_has_no_set_bits() {
    let f: BloomFilter<u64> = BloomFilter::new(256, 4);
    assert_eq!(f.set_bit_count(), 0);
}

#[test]
fn query_is_deterministic() {
    let mut f: BloomFilter<i32> = BloomFilter::new(4096, 3);
    for x in 0..50 {
        f.add_element(x).unwrap();
    }
    for x in [0, 17, 49, 50, 9999, -3] {
        let first = f.check_for(x);
        let second = f.check_for(x);
        assert_eq!(first, second);
    }
}

#[test]
fn no_false_negatives() {
    let mut f: BloomFilter<i32> = BloomFilter::new(8192, 3);
    for x in 0..200 {
        assert_eq!(f.add_element(x), Ok(()));
    }
    for x in 0..200 {
        assert_eq!(f.check_for(x), Ok(true));
    }
}

#[test]
fn saturation_is_monotone() {
    let mut f: BloomFilter<u32> = BloomFilter::new(2048, 3);
    let mut previous = f.set_bit_count();
    assert_eq!(previous, 0);
    for x in 0..100 {
        f.add_element(x).unwrap();
        let current = f.set_bit_count();
        assert!(current >= previous);
        // At most `probe_count` flags are newly set per insert.
        assert!(current <= previous + 3);
        previous = current;
    }
}

#[test]
fn scenario_thousand_inserts() {
    let mut f: BloomFilter<i32> = BloomFilter::new(1_000_000, 3);
    for x in 0..1000 {
        assert_eq!(f.add_element(x), Ok(()));
    }
    // An inserted value is reported present unconditionally.
    assert_eq!(f.check_for(998), Ok(true));
    // A never-inserted value is reported absent: a false positive is
    // probabilistically allowed here, but at this saturation (at most 3000
    // of 1'000'000 flags set) its chance is of the order of 1e-8.
    assert_eq!(f.check_for(9989), Ok(false));
}

#[test]
fn false_positive_rate_is_bounded() {
    let mut f: BloomFilter<i32> = BloomFilter::new(1_000_000, 3);
    for x in 0..1000 {
        f.add_element(x).unwrap();
    }
    // With k = 3 probes, n = 1000 inserts and m = 1'000'000 slots, the
    // expected false-positive rate is (1 - e^(-k*n/m))^k, about 2.7e-8.
    // Demand well under 1% over 20'000 never-inserted samples.
    let mut false_positives = 0usize;
    for x in 1_000_000..1_020_000 {
        if f.check_for(x).unwrap() {
            false_positives += 1;
        }
    }
    assert!(false_positives < 200);
}

#[test]
fn guaranteed_false_positive_in_tiny_filter() {
    // One slot: every probe lands on it, so one insert saturates the filter
    // and every later query is a (sound) false positive.
    let mut f: BloomFilter<i32> = BloomFilter::new(1, 1);
    assert_eq!(f.check_for(777), Ok(false));
    assert_eq!(f.add_element(5), Ok(()));
    assert_eq!(f.check_for(5), Ok(true));
    assert_eq!(f.check_for(777), Ok(true));
    assert_eq!(f.set_bit_count(), 1);
}

#[test]
fn probe_slots_stay_in_range() {
    let words = [0u64, 1, 0x0123_4567_89ab_cdef, u64::MAX];
    let caps = [1usize, 2, 7, 1000, 1_000_000];
    for &word in &words {
        for index in 0..8 {
            for &cap in &caps {
                let slot = probe_slot(word, index, cap).unwrap();
                assert!(slot < cap);
            }
        }
    }
}

#[test]
fn raw_hash_depends_on_probe_index() {
    let f: BloomFilter<i32> = BloomFilter::new(64, 2);
    let first = f.hash(&42, 0).unwrap();
    let second = f.hash(&42, 1).unwrap();
    assert_ne!(first, second);
}

#[test]
fn raw_hash_depends_on_element() {
    let f: BloomFilter<i32> = BloomFilter::new(64, 2);
    let zero = f.hash(&0, 0).unwrap();
    let one = f.hash(&1, 0).unwrap();
    assert_ne!(zero, one);
}

#[test]
fn raw_hash_is_deterministic() {
    let f: BloomFilter<i32> = BloomFilter::new(64, 2);
    let g: BloomFilter<i32> = BloomFilter::new(1024, 5);
    let a = f.hash(&7, 2).unwrap();
    let b = f.hash(&7, 2).unwrap();
    let c = g.hash(&7, 2).unwrap();
    assert_eq!(a, b);
    assert_eq!(a, c);
}

#[test]
fn hashed_level_round_trip() {
    let mut f: BloomFilter<u64> = BloomFilter::new(4096, 3);
    for word in [0u64, 1, 99, u64::MAX] {
        assert_eq!(f.check_hashed(word), Ok(false));
        assert_eq!(f.add_hashed(word), Ok(()));
        assert_eq!(f.check_hashed(word), Ok(true));
    }
}
