use vstd::prelude::*;

use crate::random::{block_seed, block_seed_of};

verus! {

/// The 64-bit golden ratio constant; the first half of the state that replaces an
/// all-zero seed.
pub const GOLDEN_RATIO_64: u64 = 0x9E37_79B9_7F4A_7C15;

/// The 64-bit silver ratio constant; the second half of the state that replaces an
/// all-zero seed.
pub const SILVER_RATIO_64: u64 = 0x6A09_E667_F3BC_C909;

pub open spec fn rotl(x: u64, n: u64) -> u64 {
    (x << n) | (x >> ((64 - n) as u64))
}

/// The state that a 128-bit seed installs: the seed itself, unless it is all zero.
pub open spec fn xo_seeded(lo: u64, hi: u64) -> (u64, u64) {
    if lo == 0 && hi == 0 {
        (GOLDEN_RATIO_64, SILVER_RATIO_64)
    } else {
        (lo, hi)
    }
}

/// The Stafford variant 13 finaliser.
pub open spec fn stafford13(s: u64) -> u64 {
    let a = (s ^ (s >> 30u64)).wrapping_mul(0xBF58_476D_1CE4_E5B9u64);
    let b = (a ^ (a >> 27u64)).wrapping_mul(0x94D0_49BB_1331_11EBu64);
    b ^ (b >> 31u64)
}

/// The 128-bit seed derived from a 64-bit one.
pub open spec fn upgraded(seed: i64) -> (u64, u64) {
    let l = (seed as u64) ^ SILVER_RATIO_64;
    (stafford13(l), stafford13(l.wrapping_add(GOLDEN_RATIO_64)))
}

/// The 64-bit output drawn from state `(lo, hi)`.
pub open spec fn xo_output(s: (u64, u64)) -> u64 {
    rotl(s.0.wrapping_add(s.1), 17).wrapping_add(s.0)
}

/// The state that follows `(lo, hi)`.
pub open spec fn xo_step(s: (u64, u64)) -> (u64, u64) {
    let j = s.1 ^ s.0;
    (rotl(s.0, 49) ^ j ^ (j << 21u64), rotl(j, 28))
}

/// The top `bits` bits of the next output.
pub open spec fn xo_bits(s: (u64, u64), bits: u64) -> i64 {
    (xo_output(s) >> ((64 - bits) as u64)) as i64
}

/// What `next_i32` returns: the low 32 bits of the next output.
pub open spec fn xo_i32(s: (u64, u64)) -> i32 {
    xo_bits(s, 64) as i32
}

/// The rejection threshold of the multiply-high method: `2^32 mod bound`.
pub open spec fn lemire_threshold(bound: int) -> int {
    (0x1_0000_0000 - bound) % bound
}

/// Draws of `next_i32_bound`: a 32-bit draw times `bound` gives the result in its
/// high half; the draw is repeated while its low half falls below the threshold.
/// `fuel` bounds the redraws; each 64-bit output recurs within one period of
/// 2^128 - 1 states, so the bound is never what ends the loop.
pub open spec fn xo_bounded(s: (u64, u64), bound: i32, fuel: nat) -> (i32, (u64, u64))
    decreases fuel,
{
    let j = (xo_i32(s) as u32) as int * bound as int;
    if bound == 0 || j % 0x1_0000_0000 >= lemire_threshold(bound as int) || fuel == 0 {
        ((j / 0x1_0000_0000) as i32, xo_step(s))
    } else {
        xo_bounded(xo_step(s), bound, (fuel - 1) as nat)
    }
}

/// The period of the generator.
pub const XO_PERIOD: u128 = 0xFFFF_FFFF_FFFF_FFFF_FFFF_FFFF_FFFF_FFFF;

/// The digest that MD5 gives for `data`.
pub uninterp spec fn md5_of(data: Seq<u8>) -> Seq<u8>;

/// Relies on `md5::compute`: the 16-byte MD5 digest of the bytes.
#[verifier::external_body]
fn md5_digest(data: &[u8]) -> (r: [u8; 16])
    ensures
        r@ == md5_of(data@),
{
    md5::compute(data).0
}

/// Eight bytes from `off` read as one big-endian unsigned value.
pub open spec fn be_u64(b: Seq<u8>, off: int) -> u64 {
    ((b[off] as u64) << 56u64) | ((b[off + 1] as u64) << 48u64) | ((b[off + 2] as u64) << 40u64)
        | ((b[off + 3] as u64) << 32u64) | ((b[off + 4] as u64) << 24u64) | ((b[off + 5] as u64)
        << 16u64) | ((b[off + 6] as u64) << 8u64) | (b[off + 7] as u64)
}

fn read_be_u64(b: &[u8; 16], off: usize) -> (r: u64)
    requires
        off + 8 <= 16,
    ensures
        r == be_u64(b@, off as int),
{
    ((b[off] as u64) << 56u64) | ((b[off + 1] as u64) << 48u64) | ((b[off + 2] as u64) << 40u64)
        | ((b[off + 3] as u64) << 32u64) | ((b[off + 4] as u64) << 24u64) | ((b[off + 5] as u64)
        << 16u64) | ((b[off + 6] as u64) << 8u64) | (b[off + 7] as u64)
}

fn rotate_left(x: u64, n: u64) -> (r: u64)
    requires
        0 < n < 64,
    ensures
        r == rotl(x, n),
{
    (x << n) | (x >> (64 - n))
}

/// The 128-bit xoroshiro generator (the "++" output function).
#[derive(Clone, Copy)]
pub struct XoroshiroRandom {
    seed_lo: u64,
    seed_hi: u64,
}

impl View for XoroshiroRandom {
    type V = (u64, u64);

    closed spec fn view(&self) -> (u64, u64) {
        (self.seed_lo, self.seed_hi)
    }
}

impl XoroshiroRandom {
    /// A generator seeded from 64 bits, upgraded to 128.
    pub fn new(seed: i64) -> (r: XoroshiroRandom)
        ensures
            r@ == xo_seeded(upgraded(seed).0, upgraded(seed).1),
    {
        let (lo, hi) = Self::upgrade_seed_to_128bit(seed);
        XoroshiroRandom::new_128(lo, hi)
    }

    pub fn new_128(seed_lo: i64, seed_hi: i64) -> (r: XoroshiroRandom)
        ensures
            r@ == xo_seeded(seed_lo as u64, seed_hi as u64),
    {
        proof {
            lemma_cast_zero(seed_lo);
            lemma_cast_zero(seed_hi);
        }
        if seed_lo == 0 && seed_hi == 0 {
            XoroshiroRandom { seed_lo: GOLDEN_RATIO_64, seed_hi: SILVER_RATIO_64 }
        } else {
            XoroshiroRandom { seed_lo: seed_lo as u64, seed_hi: seed_hi as u64 }
        }
    }

    fn mix_stafford_13(seed: i64) -> (r: i64)
        ensures
            r == stafford13(seed as u64) as i64,
    {
        let s = seed as u64;
        let a = (s ^ (s >> 30u64)).wrapping_mul(0xBF58_476D_1CE4_E5B9u64);
        let b = (a ^ (a >> 27u64)).wrapping_mul(0x94D0_49BB_1331_11EBu64);
        (b ^ (b >> 31u64)) as i64
    }

    fn upgrade_seed_to_128bit(seed: i64) -> (r: (i64, i64))
        ensures
            r.0 as u64 == upgraded(seed).0,
            r.1 as u64 == upgraded(seed).1,
    {
        let l = (seed as u64) ^ SILVER_RATIO_64;
        let m = l.wrapping_add(GOLDEN_RATIO_64);
        let a = Self::mix_stafford_13(l as i64);
        let b = Self::mix_stafford_13(m as i64);
        proof {
            lemma_u64_i64_round_trip(l);
            lemma_u64_i64_round_trip(m);
            lemma_u64_i64_round_trip(stafford13(l));
            lemma_u64_i64_round_trip(stafford13(m));
        }
        (a, b)
    }

    /// Advances the state and returns the top `bits` bits of the output.
    pub fn next_bits(&mut self, bits: usize) -> (r: i64)
        requires
            1 <= bits <= 64,
        ensures
            final(self)@ == xo_step(old(self)@),
            r == xo_bits(old(self)@, bits as u64),
    {
        let i = self.seed_lo;
        let mut j = self.seed_hi;
        let k = rotate_left(i.wrapping_add(j), 17).wrapping_add(i);
        j = j ^ i;
        self.seed_lo = rotate_left(i, 49) ^ j ^ (j << 21u64);
        self.seed_hi = rotate_left(j, 28);
        (k >> (64 - bits as u64)) as i64
    }

    pub fn set_seed(&mut self, seed: i64)
        ensures
            final(self)@ == upgraded(seed),
    {
        let (lo, hi) = Self::upgrade_seed_to_128bit(seed);
        self.seed_lo = lo as u64;
        self.seed_hi = hi as u64;
    }

    pub fn next_i64(&mut self) -> (r: i64)
        ensures
            final(self)@ == xo_step(old(self)@),
            r == xo_bits(old(self)@, 64),
    {
        self.next_bits(64)
    }

    pub fn next_i32(&mut self) -> (r: i32)
        ensures
            final(self)@ == xo_step(old(self)@),
            r == xo_i32(old(self)@),
    {
        self.next_i64() as i32
    }

    /// A draw in `[0, bound)` by the multiply-high method; `0` when `bound` is 0.
    pub fn next_i32_bound(&mut self, bound: i32) -> (r: i32)
        requires
            bound >= 0,
        ensures
            bound > 0 ==> 0 <= r < bound,
            bound == 0 ==> r == 0,
            (r, final(self)@) == xo_bounded(old(self)@, bound, XO_PERIOD as nat),
    {
        let threshold: i64 = if bound > 0 {
            ((0u32.wrapping_sub(bound as u32)) % (bound as u32)) as i64
        } else {
            0
        };
        proof {
            if bound > 0 {
                lemma_threshold(bound);
            }
        }
        let mut fuel: u128 = XO_PERIOD;
        loop
            invariant
                bound >= 0,
                bound > 0 ==> threshold == lemire_threshold(bound as int),
                fuel <= XO_PERIOD,
                xo_bounded(self@, bound, fuel as nat) == xo_bounded(
                    old(self)@,
                    bound,
                    XO_PERIOD as nat,
                ),
            decreases fuel,
        {
            let i = (self.next_i32() as u32) as i64;
            proof {
                lemma_split_product(i, bound);
            }
            let j = i * bound as i64;
            let k = j & 0xFFFF_FFFFi64;
            if bound == 0 || k >= threshold || fuel == 0 {
                return (j >> 32i64) as i32;
            }
            fuel = fuel - 1;
        }
    }

    pub fn next_bool(&mut self) -> (r: bool)
        ensures
            final(self)@ == xo_step(old(self)@),
            r == (xo_bits(old(self)@, 64) & 1 != 0),
    {
        self.next_i64() & 1 != 0
    }

    /// The integer behind `next_f32`: a 24-bit draw, to be scaled by 2^-24.
    pub fn next_f32_numerator(&mut self) -> (r: i32)
        ensures
            final(self)@ == xo_step(old(self)@),
            r == xo_bits(old(self)@, 24),
            0 <= r < 0x100_0000,
    {
        proof {
            lemma_top_bits(xo_output(self@));
        }
        self.next_bits(24) as i32
    }

    /// The integer behind `next_f64`: a 53-bit draw, to be scaled by 2^-53.
    pub fn next_f64_numerator(&mut self) -> (r: i64)
        ensures
            final(self)@ == xo_step(old(self)@),
            r == xo_bits(old(self)@, 53),
            0 <= r < 0x20_0000_0000_0000,
    {
        proof {
            lemma_top_bits(xo_output(self@));
        }
        self.next_bits(53)
    }
}

proof fn lemma_u64_i64_round_trip(x: u64)
    ensures
        (x as i64) as u64 == x,
{
    assert((x as i64) as u64 == x) by (bit_vector);
}

proof fn lemma_cast_zero(x: i64)
    ensures
        ((x as u64) == 0) == (x == 0),
{
    assert(((x as u64) == 0) == (x == 0)) by (bit_vector);
}

proof fn lemma_top_bits(x: u64)
    ensures
        0 <= ((x >> 40u64) as i64) < 0x100_0000,
        0 <= ((x >> 11u64) as i64) < 0x20_0000_0000_0000,
{
    assert(0 <= ((x >> 40u64) as i64) < 0x100_0000) by (bit_vector);
    assert(0 <= ((x >> 11u64) as i64) < 0x20_0000_0000_0000) by (bit_vector);
}

proof fn lemma_threshold(bound: i32)
    requires
        bound > 0,
    ensures
        ((0u32.wrapping_sub(bound as u32)) % (bound as u32)) as i64 == lemire_threshold(
            bound as int,
        ),
{
    assert(0u32.wrapping_sub(bound as u32) == 0x1_0000_0000 - bound);
}

proof fn lemma_split_product(i: i64, bound: i32)
    requires
        0 <= i < 0x1_0000_0000,
        bound >= 0,
    ensures
        0 <= i * bound < 0x8000_0000_0000_0000,
        ((i * bound) as i64) & 0xFFFF_FFFFi64 == (i * bound) % 0x1_0000_0000,
        ((i * bound) as i64) >> 32i64 == (i * bound) / 0x1_0000_0000,
        bound > 0 ==> 0 <= (i * bound) / 0x1_0000_0000 < bound,
{
    let p: int = i * bound;
    assert(0 <= p <= 0xFFFF_FFFF * 0x7FFF_FFFF) by (nonlinear_arith)
        requires
            0 <= i < 0x1_0000_0000,
            0 <= bound <= 0x7FFF_FFFF,
            p == i * bound,
    ;
    let x: i64 = p as i64;
    assert(x & 0xFFFF_FFFFi64 == x % 0x1_0000_0000) by (bit_vector)
        requires
            x >= 0,
    ;
    assert(x >> 32i64 == x / 0x1_0000_0000) by (bit_vector)
        requires
            x >= 0,
    ;
    if bound > 0 {
        assert(0 <= p / 0x1_0000_0000 < bound) by (nonlinear_arith)
            requires
                0 <= i < 0x1_0000_0000,
                bound > 0,
                p == i * bound,
        ;
    }
}

/// A positional factory of xoroshiro generators.
#[derive(Clone, Copy)]
pub struct XoroshiroPositionalRandomFactory {
    seed_lo: u64,
    seed_hi: u64,
}

impl View for XoroshiroPositionalRandomFactory {
    type V = (u64, u64);

    closed spec fn view(&self) -> (u64, u64) {
        (self.seed_lo, self.seed_hi)
    }
}

/// The state of the generator that a factory with state `f` gives for a hashed key.
pub open spec fn xo_hashed(f: (u64, u64), key: Seq<u8>) -> (u64, u64) {
    xo_seeded(be_u64(md5_of(key), 0) ^ f.0, be_u64(md5_of(key), 8) ^ f.1)
}

impl XoroshiroPositionalRandomFactory {
    pub fn from_state(seed_lo: u64, seed_hi: u64) -> (r: XoroshiroPositionalRandomFactory)
        ensures
            r@ == (seed_lo, seed_hi),
    {
        XoroshiroPositionalRandomFactory { seed_lo, seed_hi }
    }

    pub fn at(&self, x: i32, y: i32, z: i32) -> (r: XoroshiroRandom)
        ensures
            r@ == xo_seeded((block_seed_of(x, y, z) as u64) ^ self@.0, self@.1),
    {
        let s = block_seed(x, y, z) ^ (self.seed_lo as i64);
        proof {
            lemma_xor_cast(block_seed_of(x, y, z), self.seed_lo);
            lemma_u64_i64_round_trip(self.seed_hi);
        }
        XoroshiroRandom::new_128(s, self.seed_hi as i64)
    }

    /// A generator keyed by the MD5 digest of `key`.
    pub fn with_hash_of_bytes(&self, key: &[u8]) -> (r: XoroshiroRandom)
        ensures
            r@ == xo_hashed(self@, key@),
    {
        let digest = md5_digest(key);
        let lo = read_be_u64(&digest, 0) ^ self.seed_lo;
        let hi = read_be_u64(&digest, 8) ^ self.seed_hi;
        proof {
            lemma_u64_i64_round_trip(lo);
            lemma_u64_i64_round_trip(hi);
        }
        XoroshiroRandom::new_128(lo as i64, hi as i64)
    }
}

proof fn lemma_xor_cast(a: i64, b: u64)
    ensures
        ((a ^ (b as i64)) as u64) == (a as u64) ^ b,
{
    assert(((a ^ (b as i64)) as u64) == (a as u64) ^ b) by (bit_vector);
}

} // verus!
