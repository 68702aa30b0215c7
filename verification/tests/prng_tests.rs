use agee::floor_proof::prng::{MazePrngVersion, SplitMix64};

#[test]
fn splitmix64_deterministic() {
    let mut a = SplitMix64::new(42);
    let mut b = SplitMix64::new(42);

    for _ in 0..100 {
        assert_eq!(a.next(), b.next());
    }
}

#[test]
fn splitmix64_different_seeds_different_values() {
    let mut a = SplitMix64::new(42);
    let mut b = SplitMix64::new(43);

    let mut same_count = 0;
    for _ in 0..100 {
        if a.next() == b.next() {
            same_count += 1;
        }
    }
    assert_eq!(same_count, 0);
}

/// splitmix64.c: advance the state, then the three-step finalizer.
fn reference_next(state: &mut u64) -> u64 {
    *state = state.wrapping_add(0x9e3779b97f4a7c15);
    let mut z = *state;
    z = (z ^ (z >> 30)).wrapping_mul(0xbf58476d1ce4e5b9);
    z = (z ^ (z >> 27)).wrapping_mul(0x94d049bb133111eb);
    z ^ (z >> 31)
}

#[test]
fn splitmix64_exact_values() {
    let mut g = SplitMix64::new(0);
    let mut s: u64 = 0;
    for _ in 0..10 {
        assert_eq!(g.next(), reference_next(&mut s));
    }
    // The reference's first outputs for seed 0.
    let mut g = SplitMix64::new(0);
    assert_eq!(g.next(), 0xe220a8397b1dcdaf);
    assert_eq!(g.next(), 0x6e789e6aa1b965f4);
}

#[test]
fn from_bytes_reads_first_eight_little_endian() {
    let mut bytes = [0u8; 32];
    bytes[0] = 42;
    bytes[8] = 99;
    let mut a = SplitMix64::from_bytes(&bytes);
    let mut b = SplitMix64::new(42);
    assert_eq!(a.next(), b.next());
    let mut bytes2 = [0u8; 32];
    bytes2[1] = 1;
    let mut c = SplitMix64::from_bytes(&bytes2);
    let mut d = SplitMix64::new(256);
    assert_eq!(c.next(), d.next());
}

#[test]
fn next_u32_is_high_half() {
    let mut a = SplitMix64::new(7);
    let mut b = SplitMix64::new(7);
    assert_eq!(a.next_u32() as u64, b.next() >> 32);
}

#[test]
fn next_range_bounds() {
    let mut g = SplitMix64::new(123);
    for max in [1u32, 2, 3, 10, 1000, u32::MAX] {
        for _ in 0..50 {
            assert!(g.next_range(max) < max);
        }
    }
    assert_eq!(g.next_range(0), 0);
}

#[test]
fn next_range_zero_does_not_advance() {
    let mut a = SplitMix64::new(5);
    let mut b = SplitMix64::new(5);
    assert_eq!(a.next_range(0), 0);
    assert_eq!(a.next(), b.next());
}

#[test]
fn prng_version_roundtrip() {
    assert_eq!(MazePrngVersion::from_u32(1), Some(MazePrngVersion::SplitMix64V1));
    assert_eq!(MazePrngVersion::from_u32(0), None);
    assert_eq!(MazePrngVersion::from_u32(2), None);
    assert_eq!(MazePrngVersion::SplitMix64V1.as_u32(), 1);
    let v = MazePrngVersion::SplitMix64V1;
    assert_eq!(MazePrngVersion::from_u32(v.as_u32()), Some(v));
}
