use vstd::prelude::*;

use crate::random::{block_seed, block_seed_of, java_bytes_hash, java_hash, INCREMENT};

verus! {

/// Multiplier of the 48-bit linear congruential generator.
pub const MULTIPLIER: u64 = 0x5DEECE66D;

/// Mask that keeps the low 48 bits of the generator state.
pub const MODULUS_MASK: u64 = 0xFFFF_FFFF_FFFF;

/// Number of state bits of the generator.
pub const MODULUS_BITS: u64 = 48;

/// The state that `set_seed(seed)` installs.
pub open spec fn lcg_scramble(seed: i64) -> u64 {
    ((seed as u64) ^ MULTIPLIER) & MODULUS_MASK
}

/// One step of the generator: `state * multiplier + 11`, kept to 48 bits.
#[verifier::opaque]
pub open spec fn lcg_step(s: u64) -> u64 {
    s.wrapping_mul(MULTIPLIER).wrapping_add(INCREMENT as u64) & MODULUS_MASK
}

/// The top `bits` bits of a 48-bit state, as a signed 32-bit value.
pub open spec fn lcg_output(s: u64, bits: u64) -> i32 {
    (s >> ((MODULUS_BITS - bits) as u64)) as i32
}

/// What `next_bits(bits)` returns from state `s`.
pub open spec fn legacy_bits(s: u64, bits: u64) -> i32 {
    lcg_output(lcg_step(s), bits)
}

/// Two 32-bit draws joined into one 64-bit value, high half first.
pub open spec fn join_halves(hi: i32, lo: i32) -> i64 {
    (((hi as int) * 0x1_0000_0000) as i64).wrapping_add(lo as i64)
}

/// What `next_i64` returns from state `s`; it takes two steps.
pub open spec fn legacy_i64(s: u64) -> i64 {
    join_halves(legacy_bits(s, 32), legacy_bits(lcg_step(s), 32))
}

/// The integer behind `next_f64` from state `s`: 26 bits, then 27 bits, as one
/// 53-bit value; the double is this value times 2^-53.
pub open spec fn legacy_f64_numerator(s: u64) -> i64 {
    (legacy_bits(s, 26) as int * 0x800_0000 + legacy_bits(lcg_step(s), 27) as int) as i64
}

/// True when `bound` is a power of two (for positive `bound`).
pub open spec fn is_pow2(bound: i32) -> bool {
    bound & ((bound - 1) as i32) == 0
}

/// Draws of `next_i32_bound`: for a power of two the top bits of one draw are
/// scaled; otherwise a 31-bit draw is reduced modulo `bound` and drawn again while
/// it falls into the incomplete top bucket. `fuel` bounds the redraws; the
/// generator passes through all of its states within that many steps, so the
/// bound is never what ends the loop.
pub open spec fn legacy_bounded(s: u64, bound: i32, fuel: nat) -> (i32, u64)
    decreases fuel,
{
    let s1 = lcg_step(s);
    let i = lcg_output(s1, 31);
    if is_pow2(bound) {
        (((((bound as i64) * (i as i64)) as i64) >> 31i64) as i32, s1)
    } else {
        let j = i % bound;
        if i - j + (bound - 1) <= i32::MAX || fuel == 0 {
            (j as i32, s1)
        } else {
            legacy_bounded(s1, bound, (fuel - 1) as nat)
        }
    }
}

/// Number of states of the generator.
pub const LCG_PERIOD: u64 = 0x1_0000_0000_0000;

proof fn lemma_masked_output(t: u64)
    ensures
        0 <= ((t & MODULUS_MASK) >> 17u64) as i32,
        ((t & MODULUS_MASK) >> 17u64) < 0x8000_0000,
        ((t & MODULUS_MASK) >> 17u64) as i32 == ((t & MODULUS_MASK) >> 17u64),
        (t & MODULUS_MASK) < 0x1_0000_0000_0000,
{
    assert(0 <= ((t & 0xFFFF_FFFF_FFFFu64) >> 17u64) as i32) by (bit_vector);
    assert(((t & 0xFFFF_FFFF_FFFFu64) >> 17u64) < 0x8000_0000) by (bit_vector);
    assert(((t & 0xFFFF_FFFF_FFFFu64) >> 17u64) as i32 == ((t & 0xFFFF_FFFF_FFFFu64) >> 17u64))
        by (bit_vector);
    assert((t & 0xFFFF_FFFF_FFFFu64) < 0x1_0000_0000_0000) by (bit_vector);
}

proof fn lemma_masked_narrow(t: u64)
    ensures
        ((t & MODULUS_MASK) >> 22u64) < 0x400_0000,
        ((t & MODULUS_MASK) >> 22u64) as i32 == ((t & MODULUS_MASK) >> 22u64),
        ((t & MODULUS_MASK) >> 21u64) < 0x800_0000,
        ((t & MODULUS_MASK) >> 21u64) as i32 == ((t & MODULUS_MASK) >> 21u64),
{
    assert(((t & 0xFFFF_FFFF_FFFFu64) >> 22u64) < 0x400_0000) by (bit_vector);
    assert(((t & 0xFFFF_FFFF_FFFFu64) >> 22u64) as i32 == ((t & 0xFFFF_FFFF_FFFFu64) >> 22u64))
        by (bit_vector);
    assert(((t & 0xFFFF_FFFF_FFFFu64) >> 21u64) < 0x800_0000) by (bit_vector);
    assert(((t & 0xFFFF_FFFF_FFFFu64) >> 21u64) as i32 == ((t & 0xFFFF_FFFF_FFFFu64) >> 21u64))
        by (bit_vector);
}

/// A 31-bit draw is a non-negative value below 2^31.
proof fn lemma_bits31_range(s: u64)
    ensures
        0 <= legacy_bits(s, 31) < 0x8000_0000,
{
    reveal(lcg_step);
    lemma_masked_output(s.wrapping_mul(MULTIPLIER).wrapping_add(INCREMENT as u64));
}

proof fn lemma_pow2_scaled(b: i64, i: i64)
    requires
        0 < b <= i32::MAX,
        0 <= i < 0x8000_0000,
    ensures
        0 <= b * i < 0x4000_0000_0000_0000,
        0 <= ((b * i) as i64) >> 31i64 < b,
{
    let p: int = b * i;
    assert(0 <= p < b * 0x8000_0000 <= 0x4000_0000_0000_0000) by (nonlinear_arith)
        requires
            0 < b <= i32::MAX,
            0 <= i < 0x8000_0000,
            p == b * i,
    ;
    let x: i64 = p as i64;
    assert(x >> 31i64 == x / 0x8000_0000) by (bit_vector)
        requires
            x >= 0,
    ;
    assert(0 <= p / 0x8000_0000 < b) by (nonlinear_arith)
        requires
            0 <= p < b * 0x8000_0000,
    ;
}

/// The generator of the JVM: a 48-bit linear congruential generator.
#[derive(Clone, Copy)]
pub struct LegacyRandom {
    seed: u64,
}

impl View for LegacyRandom {
    type V = u64;

    closed spec fn view(&self) -> u64 {
        self.seed
    }
}

impl LegacyRandom {
    pub fn new(seed: i64) -> (r: LegacyRandom)
        ensures
            r@ == lcg_scramble(seed),
    {
        let mut r = LegacyRandom { seed: 0 };
        r.set_seed(seed);
        r
    }

    /// Installs the state of a new generator.
    pub fn set_seed(&mut self, seed: i64)
        ensures
            final(self)@ == lcg_scramble(seed),
    {
        self.seed = ((seed as u64) ^ MULTIPLIER) & MODULUS_MASK;
    }

    /// Advances the state and returns its top `bits` bits.
    pub fn next_bits(&mut self, bits: usize) -> (r: i32)
        requires
            bits <= 48,
        ensures
            final(self)@ == lcg_step(old(self)@),
            r == legacy_bits(old(self)@, bits as u64),
    {
        proof {
            reveal(lcg_step);
        }
        self.seed = self.seed.wrapping_mul(MULTIPLIER).wrapping_add(INCREMENT as u64)
            & MODULUS_MASK;
        (self.seed >> ((MODULUS_BITS - bits as u64) as u64)) as i32
    }

    pub fn next_i32(&mut self) -> (r: i32)
        ensures
            final(self)@ == lcg_step(old(self)@),
            r == legacy_bits(old(self)@, 32),
    {
        self.next_bits(32)
    }

    /// A draw in `[0, bound)`.
    pub fn next_i32_bound(&mut self, bound: i32) -> (r: i32)
        requires
            bound > 0,
        ensures
            0 <= r < bound,
            (r, final(self)@) == legacy_bounded(old(self)@, bound, LCG_PERIOD as nat),
    {
        if bound & (bound - 1) == 0 {
            self.scaled_draw(bound)
        } else {
            self.rejection_draw(bound)
        }
    }

    fn scaled_draw(&mut self, bound: i32) -> (r: i32)
        requires
            bound > 0,
            is_pow2(bound),
        ensures
            0 <= r < bound,
            (r, final(self)@) == legacy_bounded(old(self)@, bound, LCG_PERIOD as nat),
    {
        proof {
            lemma_bits31_range(self@);
        }
        let i = self.next_bits(31);
        proof {
            lemma_pow2_scaled(bound as i64, i as i64);
        }
        (((bound as i64) * (i as i64)) >> 31i64) as i32
    }

    fn rejection_draw(&mut self, bound: i32) -> (r: i32)
        requires
            bound > 0,
            !is_pow2(bound),
        ensures
            0 <= r < bound,
            (r, final(self)@) == legacy_bounded(old(self)@, bound, LCG_PERIOD as nat),
    {
        let mut fuel: u64 = LCG_PERIOD;
        loop
            invariant
                bound > 0,
                !is_pow2(bound),
                fuel <= LCG_PERIOD,
                legacy_bounded(self@, bound, fuel as nat) == legacy_bounded(
                    old(self)@,
                    bound,
                    LCG_PERIOD as nat,
                ),
            decreases fuel,
        {
            proof {
                lemma_bits31_range(self@);
            }
            let i = self.next_bits(31);
            let j = i % bound;
            if (i - j) as i64 + (bound - 1) as i64 <= i32::MAX as i64 || fuel == 0 {
                return j;
            }
            fuel = fuel - 1;
        }
    }

    /// A 64-bit draw: the high half is drawn first, then the low half.
    pub fn next_i64(&mut self) -> (r: i64)
        ensures
            final(self)@ == lcg_step(lcg_step(old(self)@)),
            r == legacy_i64(old(self)@),
    {
        let hi = self.next_i32();
        let lo = self.next_i32();
        ((hi as i64) * 0x1_0000_0000).wrapping_add(lo as i64)
    }

    pub fn next_bool(&mut self) -> (r: bool)
        ensures
            final(self)@ == lcg_step(old(self)@),
            r == (legacy_bits(old(self)@, 1) != 0),
    {
        self.next_bits(1) != 0
    }

    /// The integer behind `next_f32`: a 24-bit draw, to be scaled by 2^-24.
    pub fn next_f32_numerator(&mut self) -> (r: i32)
        ensures
            final(self)@ == lcg_step(old(self)@),
            r == legacy_bits(old(self)@, 24),
    {
        self.next_bits(24)
    }

    /// The integer behind `next_f64`: a 53-bit value, to be scaled by 2^-53.
    pub fn next_f64_numerator(&mut self) -> (r: i64)
        ensures
            final(self)@ == lcg_step(lcg_step(old(self)@)),
            r == legacy_f64_numerator(old(self)@),
            0 <= r < 0x20_0000_0000_0000,
    {
        proof {
            reveal(lcg_step);
            lemma_masked_narrow(self@.wrapping_mul(MULTIPLIER).wrapping_add(INCREMENT as u64));
        }
        let i = self.next_bits(26);
        proof {
            reveal(lcg_step);
            lemma_masked_narrow(self@.wrapping_mul(MULTIPLIER).wrapping_add(INCREMENT as u64));
        }
        let j = self.next_bits(27);
        (i as i64) * 0x800_0000 + (j as i64)
    }
}

/// A positional factory of legacy generators.
#[derive(Clone, Copy)]
pub struct LegacyPositionalRandomFactory {
    seed: i64,
}

impl View for LegacyPositionalRandomFactory {
    type V = i64;

    closed spec fn view(&self) -> i64 {
        self.seed
    }
}

impl LegacyPositionalRandomFactory {
    pub fn from_seed(seed: i64) -> (r: LegacyPositionalRandomFactory)
        ensures
            r@ == seed,
    {
        LegacyPositionalRandomFactory { seed }
    }

    pub fn at(&self, x: i32, y: i32, z: i32) -> (r: LegacyRandom)
        ensures
            r@ == lcg_scramble(block_seed_of(x, y, z) ^ self@),
    {
        LegacyRandom::new(block_seed(x, y, z) ^ self.seed)
    }

    /// A generator keyed by the string hash of `key`.
    pub fn with_hash_of_bytes(&self, key: &[u8]) -> (r: LegacyRandom)
        ensures
            r@ == lcg_scramble((java_hash(key@) as i64) ^ self@),
    {
        LegacyRandom::new((java_bytes_hash(key) as i64) ^ self.seed)
    }
}

} // verus!
