use vstd::prelude::*;
use crate::bytes::{u64_from_le_prefix, u64_le};

verus! {

/// Which PRNG a maze was generated with. Must change whenever the algorithm
/// changes.
#[derive(Debug, Clone, Copy, PartialEq, Eq, Structural)]
pub enum MazePrngVersion {
    SplitMix64V1,
}

/// The number each version is written as.
pub open spec fn prng_version_number(v: MazePrngVersion) -> u32 {
    match v {
        MazePrngVersion::SplitMix64V1 => 1,
    }
}

impl MazePrngVersion {
    pub fn from_u32(v: u32) -> (res: Option<Self>)
        ensures
            res == (if v == 1 { Some(MazePrngVersion::SplitMix64V1) } else { None::<MazePrngVersion> }),
    {
        match v {
            1 => Some(MazePrngVersion::SplitMix64V1),
            _ => None,
        }
    }

    pub fn as_u32(self) -> (res: u32)
        ensures
            res == prng_version_number(self),
    {
        match self {
            MazePrngVersion::SplitMix64V1 => 1,
        }
    }
}

/// Reading back the number of a version gives the version.
pub proof fn lemma_prng_version_roundtrip(v: MazePrngVersion)
    ensures
        (if prng_version_number(v) == 1 { Some(MazePrngVersion::SplitMix64V1) } else {
            None::<MazePrngVersion>
        }) == Some(v),
{
}

/// The step added to the state on every draw.
pub open spec fn splitmix_advance(state: u64) -> u64 {
    state.wrapping_add(0x9e3779b97f4a7c15)
}

/// The output drawn from a freshly advanced state: the SplitMix64 finalizer.
pub open spec fn splitmix_mix(z: u64) -> u64 {
    let z1 = (z ^ (z >> 30u64)).wrapping_mul(0xbf58476d1ce4e5b9);
    let z2 = (z1 ^ (z1 >> 27u64)).wrapping_mul(0x94d049bb133111eb);
    z2 ^ (z2 >> 31u64)
}

/// SplitMix64 PRNG: fast, simple, deterministic.
/// Reference: https://xorshift.di.unimi.it/splitmix64.c
pub struct SplitMix64 {
    state: u64,
}

impl SplitMix64 {
    pub closed spec fn spec_state(&self) -> u64 {
        self.state
    }

    pub fn new(seed: u64) -> (res: Self)
        ensures
            res.spec_state() == seed,
    {
        SplitMix64 { state: seed }
    }

    /// Seeds from the first eight bytes, read little-endian.
    pub fn from_bytes(bytes: &[u8; 32]) -> (res: Self)
        ensures
            u64_le(res.spec_state()) == bytes@.subrange(0, 8),
    {
        SplitMix64::new(u64_from_le_prefix(bytes))
    }

    pub fn next(&mut self) -> (res: u64)
        ensures
            final(self).spec_state() == splitmix_advance(old(self).spec_state()),
            res == splitmix_mix(final(self).spec_state()),
    {
        self.state = self.state.wrapping_add(0x9e3779b97f4a7c15);
        let mut z = self.state;
        z = (z ^ (z >> 30u64)).wrapping_mul(0xbf58476d1ce4e5b9);
        z = (z ^ (z >> 27u64)).wrapping_mul(0x94d049bb133111eb);
        z ^ (z >> 31u64)
    }

    /// The high 32 bits of the next draw.
    pub fn next_u32(&mut self) -> (res: u32)
        ensures
            final(self).spec_state() == splitmix_advance(old(self).spec_state()),
            res == splitmix_mix(final(self).spec_state()) / 0x1_0000_0000,
    {
        let v = self.next();
        assert(v >> 32u64 == v / 0x1_0000_0000) by (bit_vector);
        (v >> 32u64) as u32
    }

    /// A draw in `0..max` (scaled from the high 32 bits), or 0 without
    /// drawing when `max` is 0.
    pub fn next_range(&mut self, max: u32) -> (res: u32)
        ensures
            max == 0 ==> res == 0 && final(self).spec_state() == old(self).spec_state(),
            max > 0 ==> {
                &&& final(self).spec_state() == splitmix_advance(old(self).spec_state())
                &&& res == (splitmix_mix(final(self).spec_state()) / 0x1_0000_0000) * max
                    / 0x1_0000_0000
                &&& res < max
            },
    {
        if max == 0 {
            return 0;
        }
        let a = self.next_u32();
        assert((a as u64) * (max as u64) <= u64::MAX) by (nonlinear_arith)
            requires
                a < 0x1_0000_0000,
                max < 0x1_0000_0000,
        ;
        let p: u64 = a as u64 * max as u64;
        assert(p >> 32u64 == p / 0x1_0000_0000) by (bit_vector);
        assert(p / 0x1_0000_0000 < max as u64) by (nonlinear_arith)
            requires
                p == a as u64 * max as u64,
                a < 0x1_0000_0000,
                max > 0,
        ;
        (p >> 32u64) as u32
    }
}

/// The state update is a bijection.
proof fn lemma_advance_injective(a: u64, b: u64)
    requires
        splitmix_advance(a) == splitmix_advance(b),
    ensures
        a == b,
{
    assert(a.wrapping_add(0x9e3779b97f4a7c15) == b.wrapping_add(0x9e3779b97f4a7c15) ==> a == b)
        by (bit_vector);
}

/// The output function is a bijection: distinct states never give equal draws.
proof fn lemma_mix_injective(a: u64, b: u64)
    requires
        splitmix_mix(a) == splitmix_mix(b),
    ensures
        a == b,
{
    let a1 = (a ^ (a >> 30u64)).wrapping_mul(0xbf58476d1ce4e5b9);
    let b1 = (b ^ (b >> 30u64)).wrapping_mul(0xbf58476d1ce4e5b9);
    let a2 = (a1 ^ (a1 >> 27u64)).wrapping_mul(0x94d049bb133111eb);
    let b2 = (b1 ^ (b1 >> 27u64)).wrapping_mul(0x94d049bb133111eb);
    assert((a2 ^ (a2 >> 31u64)) == (b2 ^ (b2 >> 31u64)) ==> a2 == b2) by (bit_vector);
    let c1 = a1 ^ (a1 >> 27u64);
    let d1 = b1 ^ (b1 >> 27u64);
    assert(c1.wrapping_mul(0x94d049bb133111eb) == d1.wrapping_mul(0x94d049bb133111eb) ==> c1 == d1)
        by (bit_vector);
    assert((a1 ^ (a1 >> 27u64)) == (b1 ^ (b1 >> 27u64)) ==> a1 == b1) by (bit_vector);
    let a0 = a ^ (a >> 30u64);
    let b0 = b ^ (b >> 30u64);
    assert(a0.wrapping_mul(0xbf58476d1ce4e5b9) == b0.wrapping_mul(0xbf58476d1ce4e5b9) ==> a0 == b0)
        by (bit_vector);
    assert((a ^ (a >> 30u64)) == (b ^ (b >> 30u64)) ==> a == b) by (bit_vector);
}

/// The first draw from seed 0 is the reference's first output for seed 0.
pub proof fn lemma_splitmix_first_output_seed_zero()
    ensures
        splitmix_mix(splitmix_advance(0)) == 0xe220a8397b1dcdaf,
{
    let z: u64 = 0x9e3779b97f4a7c15;
    assert(splitmix_advance(0) == z);
    assert({
        let z1 = (z ^ (z >> 30u64)).wrapping_mul(0xbf58476d1ce4e5b9);
        let z2 = (z1 ^ (z1 >> 27u64)).wrapping_mul(0x94d049bb133111eb);
        z2 ^ (z2 >> 31u64)
    } == 0xe220a8397b1dcdaf) by (bit_vector)
        requires
            z == 0x9e3779b97f4a7c15,
    ;
}

/// The state after `n` draws from `seed`.
pub open spec fn splitmix_state_after(seed: u64, n: nat) -> u64
    decreases n,
{
    if n == 0 {
        seed
    } else {
        splitmix_advance(splitmix_state_after(seed, (n - 1) as nat))
    }
}

/// Two generators seeded differently never draw the same value at the same
/// position; seeded alike, they draw the same values.
pub proof fn lemma_splitmix_seeds(seed_a: u64, seed_b: u64, n: nat)
    ensures
        seed_a != seed_b ==> splitmix_mix(splitmix_state_after(seed_a, n + 1)) != splitmix_mix(
            splitmix_state_after(seed_b, n + 1),
        ),
        seed_a == seed_b ==> splitmix_mix(splitmix_state_after(seed_a, n + 1)) == splitmix_mix(
            splitmix_state_after(seed_b, n + 1),
        ),
    decreases n,
{
    if seed_a != seed_b {
        lemma_states_differ(seed_a, seed_b, n + 1);
        if splitmix_mix(splitmix_state_after(seed_a, n + 1)) == splitmix_mix(
            splitmix_state_after(seed_b, n + 1),
        ) {
            lemma_mix_injective(splitmix_state_after(seed_a, n + 1), splitmix_state_after(seed_b, n + 1));
        }
    }
}

proof fn lemma_states_differ(seed_a: u64, seed_b: u64, n: nat)
    requires
        seed_a != seed_b,
    ensures
        splitmix_state_after(seed_a, n) != splitmix_state_after(seed_b, n),
    decreases n,
{
    if n > 0 {
        lemma_states_differ(seed_a, seed_b, (n - 1) as nat);
        if splitmix_state_after(seed_a, n) == splitmix_state_after(seed_b, n) {
            lemma_advance_injective(
                splitmix_state_after(seed_a, (n - 1) as nat),
                splitmix_state_after(seed_b, (n - 1) as nat),
            );
        }
    }
}

} // verus!
