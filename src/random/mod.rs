use vstd::prelude::*;
use vstd::string::StringSliceAdditionalSpecFns;

pub mod legacy;
pub mod xoroshiro;
pub mod random_state;

use crate::block_pos::BlockPos;
use crate::random::legacy::{
    lcg_scramble, lcg_step, legacy_bits, legacy_bounded, legacy_f64_numerator, legacy_i64,
    LegacyPositionalRandomFactory, LegacyRandom, LCG_PERIOD,
};
use crate::random::xoroshiro::{
    upgraded, xo_bits, xo_bounded, xo_hashed, xo_i32, xo_seeded, xo_step,
    XoroshiroPositionalRandomFactory, XoroshiroRandom, XO_PERIOD,
};

verus! {

/// Increment of the 48-bit linear congruential generator; also the factor of the
/// linear term in the block seed.
pub const INCREMENT: i64 = 11;

/// The string hash of the JVM: the polynomial with multiplier 31 over the UTF-8
/// bytes, in wrapping 32-bit arithmetic.
pub open spec fn java_hash(bytes: Seq<u8>) -> i32
    decreases bytes.len(),
{
    if bytes.len() == 0 {
        0
    } else {
        java_hash(bytes.drop_last()).wrapping_mul(31).wrapping_add(bytes.last() as i32)
    }
}

/// The per-block seed: the three coordinates mixed into one 64-bit value,
/// squared and scaled in wrapping arithmetic, then shifted right by 16.
pub open spec fn block_seed_of(x: i32, y: i32, z: i32) -> i64 {
    let s = (x.wrapping_mul(3129871i32) as i64) ^ (z as i64).wrapping_mul(116129781i64)
        ^ (y as i64);
    s.wrapping_mul(s).wrapping_mul(42317861i64).wrapping_add(s.wrapping_mul(11i64)) >> 16
}

pub fn java_string_hash(str: &str) -> (r: i32)
    ensures
        r == java_hash(str.spec_bytes()),
{
    java_bytes_hash(str.as_bytes())
}

/// The string hash of `java_string_hash`, over bytes that are already encoded.
pub fn java_bytes_hash(bytes: &[u8]) -> (r: i32)
    ensures
        r == java_hash(bytes@),
{
    let mut hash: i32 = 0;
    let mut i: usize = 0;
    while i < bytes.len()
        invariant
            i <= bytes@.len(),
            hash == java_hash(bytes@.subrange(0, i as int)),
        decreases bytes@.len() - i,
    {
        assert(bytes@.subrange(0, i + 1).drop_last() =~= bytes@.subrange(0, i as int));
        hash = hash.wrapping_mul(31).wrapping_add(bytes[i] as i32);
        i = i + 1;
    }
    assert(bytes@.subrange(0, i as int) =~= bytes@);
    hash
}

pub fn block_seed(x: i32, y: i32, z: i32) -> (r: i64)
    ensures
        r == block_seed_of(x, y, z),
{
    let s = (x.wrapping_mul(3129871i32) as i64) ^ (z as i64).wrapping_mul(116129781i64)
        ^ (y as i64);
    s.wrapping_mul(s).wrapping_mul(42317861i64).wrapping_add(s.wrapping_mul(INCREMENT)) >> 16
}

/// Which of the two generators a source or factory runs.
#[derive(Clone, Copy, Debug, PartialEq, Eq, Structural)]
pub enum Kind {
    LegacyRandom,
    Xoroshiro,
}

/// The state of a random source, as a value.
pub enum SourceState {
    Legacy(u64),
    Xoroshiro(u64, u64),
}

/// The state of a positional factory, as a value.
pub enum FactoryState {
    Legacy(i64),
    Xoroshiro(u64, u64),
}

pub open spec fn kind_of(s: SourceState) -> Kind {
    match s {
        SourceState::Legacy(_) => Kind::LegacyRandom,
        SourceState::Xoroshiro(_, _) => Kind::Xoroshiro,
    }
}

pub open spec fn factory_kind_of(f: FactoryState) -> Kind {
    match f {
        FactoryState::Legacy(_) => Kind::LegacyRandom,
        FactoryState::Xoroshiro(_, _) => Kind::Xoroshiro,
    }
}

/// The state of a new source of `kind` seeded with `seed`.
pub open spec fn seeded(kind: Kind, seed: i64) -> SourceState {
    match kind {
        Kind::LegacyRandom => SourceState::Legacy(lcg_scramble(seed)),
        Kind::Xoroshiro => {
            let u = upgraded(seed);
            let s = xo_seeded(u.0, u.1);
            SourceState::Xoroshiro(s.0, s.1)
        },
    }
}

/// The state after `set_seed(seed)`; the kind stays.
pub open spec fn reseeded(s: SourceState, seed: i64) -> SourceState {
    match s {
        SourceState::Legacy(_) => SourceState::Legacy(lcg_scramble(seed)),
        SourceState::Xoroshiro(_, _) => SourceState::Xoroshiro(upgraded(seed).0, upgraded(seed).1),
    }
}

/// `next_i32`: the value drawn and the state after it.
pub open spec fn i32_of(s: SourceState) -> (i32, SourceState) {
    match s {
        SourceState::Legacy(t) => (legacy_bits(t, 32), SourceState::Legacy(lcg_step(t))),
        SourceState::Xoroshiro(lo, hi) => {
            let n = xo_step((lo, hi));
            (xo_i32((lo, hi)), SourceState::Xoroshiro(n.0, n.1))
        },
    }
}

/// `next_i64`: the value drawn and the state after it.
pub open spec fn i64_of(s: SourceState) -> (i64, SourceState) {
    match s {
        SourceState::Legacy(t) => (legacy_i64(t), SourceState::Legacy(lcg_step(lcg_step(t)))),
        SourceState::Xoroshiro(lo, hi) => {
            let n = xo_step((lo, hi));
            (xo_bits((lo, hi), 64), SourceState::Xoroshiro(n.0, n.1))
        },
    }
}

/// `next_i32_bound(bound)`: the value drawn and the state after it.
pub open spec fn bounded_of(s: SourceState, bound: i32) -> (i32, SourceState) {
    match s {
        SourceState::Legacy(t) => {
            let r = legacy_bounded(t, bound, LCG_PERIOD as nat);
            (r.0, SourceState::Legacy(r.1))
        },
        SourceState::Xoroshiro(lo, hi) => {
            let r = xo_bounded((lo, hi), bound, XO_PERIOD as nat);
            (r.0, SourceState::Xoroshiro(r.1.0, r.1.1))
        },
    }
}

/// `next_bool`: the value drawn and the state after it.
pub open spec fn bool_of(s: SourceState) -> (bool, SourceState) {
    match s {
        SourceState::Legacy(t) => (legacy_bits(t, 1) != 0, SourceState::Legacy(lcg_step(t))),
        SourceState::Xoroshiro(lo, hi) => {
            let n = xo_step((lo, hi));
            (xo_bits((lo, hi), 64) & 1 != 0, SourceState::Xoroshiro(n.0, n.1))
        },
    }
}

/// The integer behind `next_f32` (to be scaled by 2^-24) and the state after it.
pub open spec fn f32_numerator_of(s: SourceState) -> (i32, SourceState) {
    match s {
        SourceState::Legacy(t) => (legacy_bits(t, 24), SourceState::Legacy(lcg_step(t))),
        SourceState::Xoroshiro(lo, hi) => {
            let n = xo_step((lo, hi));
            (xo_bits((lo, hi), 24) as i32, SourceState::Xoroshiro(n.0, n.1))
        },
    }
}

/// The integer behind `next_f64` (to be scaled by 2^-53) and the state after it.
pub open spec fn f64_numerator_of(s: SourceState) -> (i64, SourceState) {
    match s {
        SourceState::Legacy(t) => (
            legacy_f64_numerator(t),
            SourceState::Legacy(lcg_step(lcg_step(t))),
        ),
        SourceState::Xoroshiro(lo, hi) => {
            let n = xo_step((lo, hi));
            (xo_bits((lo, hi), 53), SourceState::Xoroshiro(n.0, n.1))
        },
    }
}

/// The state after `n` calls of `next_i32`.
pub open spec fn consumed(s: SourceState, n: nat) -> SourceState
    decreases n,
{
    if n == 0 {
        s
    } else {
        i32_of(consumed(s, (n - 1) as nat)).1
    }
}

/// `fork`: the state of the new source and the state of the parent after it.
pub open spec fn forked(s: SourceState) -> (SourceState, SourceState) {
    match s {
        SourceState::Legacy(t) => (
            SourceState::Legacy(lcg_scramble(legacy_i64(t))),
            SourceState::Legacy(lcg_step(lcg_step(t))),
        ),
        SourceState::Xoroshiro(lo, hi) => {
            let a = xo_bits((lo, hi), 64);
            let n = xo_step((lo, hi));
            let b = xo_bits(n, 64);
            let m = xo_step(n);
            let c = xo_seeded(a as u64, b as u64);
            (SourceState::Xoroshiro(c.0, c.1), SourceState::Xoroshiro(m.0, m.1))
        },
    }
}

/// `fork_positional`: the state of the new factory and of the parent after it.
pub open spec fn forked_positional(s: SourceState) -> (FactoryState, SourceState) {
    match s {
        SourceState::Legacy(t) => (
            FactoryState::Legacy(legacy_i64(t)),
            SourceState::Legacy(lcg_step(lcg_step(t))),
        ),
        SourceState::Xoroshiro(lo, hi) => {
            let a = xo_bits((lo, hi), 64);
            let n = xo_step((lo, hi));
            let b = xo_bits(n, 64);
            let m = xo_step(n);
            (FactoryState::Xoroshiro(a as u64, b as u64), SourceState::Xoroshiro(m.0, m.1))
        },
    }
}

/// The state of the source that a factory gives for a block position.
pub open spec fn factory_at(f: FactoryState, x: i32, y: i32, z: i32) -> SourceState {
    match f {
        FactoryState::Legacy(seed) => SourceState::Legacy(
            lcg_scramble(block_seed_of(x, y, z) ^ seed),
        ),
        FactoryState::Xoroshiro(lo, hi) => {
            let s = xo_seeded((block_seed_of(x, y, z) as u64) ^ lo, hi);
            SourceState::Xoroshiro(s.0, s.1)
        },
    }
}

/// The state of the source that a factory gives for a key, as UTF-8 bytes.
pub open spec fn factory_hashed(f: FactoryState, key: Seq<u8>) -> SourceState {
    match f {
        FactoryState::Legacy(seed) => SourceState::Legacy(
            lcg_scramble((java_hash(key) as i64) ^ seed),
        ),
        FactoryState::Xoroshiro(lo, hi) => {
            let s = xo_hashed((lo, hi), key);
            SourceState::Xoroshiro(s.0, s.1)
        },
    }
}

/// Forking a source advances it exactly as drawing 64-bit values does: one draw
/// for the legacy kind, two for xoroshiro. The same holds for positional forks.
pub proof fn fork_consumes_draws(s: SourceState)
    ensures
        kind_of(s) == Kind::LegacyRandom ==> forked(s).1 == i64_of(s).1
            && forked_positional(s).1 == i64_of(s).1,
        kind_of(s) == Kind::Xoroshiro ==> forked(s).1 == i64_of(i64_of(s).1).1
            && forked_positional(s).1 == i64_of(i64_of(s).1).1,
{
}

/// Discarding `a` draws and then `b` draws leaves a source where discarding
/// `a + b` draws at once does; the kind never changes.
pub proof fn consume_adds_up(s: SourceState, a: nat, b: nat)
    ensures
        consumed(consumed(s, a), b) == consumed(s, a + b),
        kind_of(consumed(s, a)) == kind_of(s),
    decreases a + b,
{
    if b > 0 {
        consume_adds_up(s, a, (b - 1) as nat);
        assert((a + b - 1) as nat == a + (b - 1) as nat);
    } else if a > 0 {
        consume_adds_up(s, (a - 1) as nat, 0);
    }
}

impl Kind {
    /// The kind that the settings flag `legacy_random_source` selects.
    pub fn from_legacy_flag(legacy: bool) -> (r: Kind)
        ensures
            legacy ==> r == Kind::LegacyRandom,
            !legacy ==> r == Kind::Xoroshiro,
    {
        if legacy {
            Kind::LegacyRandom
        } else {
            Kind::Xoroshiro
        }
    }

    /// A new source of this kind.
    pub fn new_instance(&self, seed: i64) -> (r: RandomSource)
        ensures
            r@ == seeded(*self, seed),
    {
        match self {
            Kind::LegacyRandom => RandomSource::Legacy(LegacyRandom::new(seed)),
            Kind::Xoroshiro => RandomSource::Xoroshiro(XoroshiroRandom::new(seed)),
        }
    }
}

/// A random source of either kind.
pub enum RandomSource {
    Legacy(LegacyRandom),
    Xoroshiro(XoroshiroRandom),
}

impl View for RandomSource {
    type V = SourceState;

    open spec fn view(&self) -> SourceState {
        match self {
            RandomSource::Legacy(r) => SourceState::Legacy(r@),
            RandomSource::Xoroshiro(r) => SourceState::Xoroshiro(r@.0, r@.1),
        }
    }
}

impl RandomSource {
    pub fn fork(&mut self) -> (r: RandomSource)
        ensures
            (r@, final(self)@) == forked(old(self)@),
    {
        match self {
            RandomSource::Legacy(g) => RandomSource::Legacy(LegacyRandom::new(g.next_i64())),
            RandomSource::Xoroshiro(g) => {
                let a = g.next_i64();
                let b = g.next_i64();
                RandomSource::Xoroshiro(XoroshiroRandom::new_128(a, b))
            },
        }
    }

    pub fn fork_positional(&mut self) -> (r: PositionalRandomFactory)
        ensures
            (r@, final(self)@) == forked_positional(old(self)@),
    {
        match self {
            RandomSource::Legacy(g) => PositionalRandomFactory::Legacy(
                LegacyPositionalRandomFactory::from_seed(g.next_i64()),
            ),
            RandomSource::Xoroshiro(g) => {
                let a = g.next_i64();
                let b = g.next_i64();
                PositionalRandomFactory::Xoroshiro(
                    XoroshiroPositionalRandomFactory::from_state(a as u64, b as u64),
                )
            },
        }
    }

    pub fn set_seed(&mut self, seed: i64)
        ensures
            final(self)@ == reseeded(old(self)@, seed),
    {
        match self {
            RandomSource::Legacy(g) => g.set_seed(seed),
            RandomSource::Xoroshiro(g) => g.set_seed(seed),
        }
    }

    pub fn next_i32(&mut self) -> (r: i32)
        ensures
            (r, final(self)@) == i32_of(old(self)@),
    {
        match self {
            RandomSource::Legacy(g) => g.next_i32(),
            RandomSource::Xoroshiro(g) => g.next_i32(),
        }
    }

    /// A draw in `[0, bound)`. A bound of 0 is accepted by the xoroshiro kind only,
    /// and then gives 0.
    pub fn next_i32_bound(&mut self, bound: i32) -> (r: i32)
        requires
            bound > 0 || (bound == 0 && kind_of(old(self)@) == Kind::Xoroshiro),
        ensures
            (r, final(self)@) == bounded_of(old(self)@, bound),
            bound > 0 ==> 0 <= r < bound,
            bound == 0 ==> r == 0,
    {
        match self {
            RandomSource::Legacy(g) => g.next_i32_bound(bound),
            RandomSource::Xoroshiro(g) => g.next_i32_bound(bound),
        }
    }

    /// A draw in `[interval.0, interval.1]`.
    pub fn next_i32_between_inclusive(&mut self, interval: (i32, i32)) -> (r: i32)
        requires
            interval.0 <= interval.1,
            interval.1 - interval.0 + 1 <= i32::MAX,
        ensures
            r == bounded_of(old(self)@, (interval.1 - interval.0 + 1) as i32).0 + interval.0,
            final(self)@ == bounded_of(old(self)@, (interval.1 - interval.0 + 1) as i32).1,
            interval.0 <= r <= interval.1,
    {
        self.next_i32_bound(interval.1 - interval.0 + 1) + interval.0
    }

    pub fn next_i64(&mut self) -> (r: i64)
        ensures
            (r, final(self)@) == i64_of(old(self)@),
    {
        match self {
            RandomSource::Legacy(g) => g.next_i64(),
            RandomSource::Xoroshiro(g) => g.next_i64(),
        }
    }

    pub fn next_bool(&mut self) -> (r: bool)
        ensures
            (r, final(self)@) == bool_of(old(self)@),
    {
        match self {
            RandomSource::Legacy(g) => g.next_bool(),
            RandomSource::Xoroshiro(g) => g.next_bool(),
        }
    }

    /// The integer behind `next_f32`: `next_f32()` is this value times 2^-24.
    pub fn next_f32_numerator(&mut self) -> (r: i32)
        ensures
            (r, final(self)@) == f32_numerator_of(old(self)@),
    {
        match self {
            RandomSource::Legacy(g) => g.next_f32_numerator(),
            RandomSource::Xoroshiro(g) => g.next_f32_numerator(),
        }
    }

    /// The integer behind `next_f64`: `next_f64()` is this value times 2^-53.
    pub fn next_f64_numerator(&mut self) -> (r: i64)
        ensures
            (r, final(self)@) == f64_numerator_of(old(self)@),
            0 <= r < 0x20_0000_0000_0000,
    {
        match self {
            RandomSource::Legacy(g) => g.next_f64_numerator(),
            RandomSource::Xoroshiro(g) => g.next_f64_numerator(),
        }
    }

    /// Discards `count` 32-bit draws.
    pub fn consume(&mut self, count: usize)
        ensures
            final(self)@ == consumed(old(self)@, count as nat),
    {
        let mut i: usize = 0;
        while i < count
            invariant
                i <= count,
                self@ == consumed(old(self)@, i as nat),
            decreases count - i,
        {
            self.next_i32();
            i = i + 1;
        }
    }

    pub fn kind(&self) -> (r: Kind)
        ensures
            r == kind_of(self@),
    {
        match self {
            RandomSource::Legacy(_) => Kind::LegacyRandom,
            RandomSource::Xoroshiro(_) => Kind::Xoroshiro,
        }
    }
}

/// A positional factory of either kind.
pub enum PositionalRandomFactory {
    Legacy(LegacyPositionalRandomFactory),
    Xoroshiro(XoroshiroPositionalRandomFactory),
}

impl View for PositionalRandomFactory {
    type V = FactoryState;

    open spec fn view(&self) -> FactoryState {
        match self {
            PositionalRandomFactory::Legacy(f) => FactoryState::Legacy(f@),
            PositionalRandomFactory::Xoroshiro(f) => FactoryState::Xoroshiro(f@.0, f@.1),
        }
    }
}

impl PositionalRandomFactory {
    pub fn at(&self, x: i32, y: i32, z: i32) -> (r: RandomSource)
        ensures
            r@ == factory_at(self@, x, y, z),
    {
        match self {
            PositionalRandomFactory::Legacy(f) => RandomSource::Legacy(f.at(x, y, z)),
            PositionalRandomFactory::Xoroshiro(f) => RandomSource::Xoroshiro(f.at(x, y, z)),
        }
    }

    pub fn at_block(&self, pos: BlockPos) -> (r: RandomSource)
        ensures
            r@ == factory_at(self@, pos.x, pos.y, pos.z),
    {
        self.at(pos.x, pos.y, pos.z)
    }

    pub fn with_hash_of(&self, string: &str) -> (r: RandomSource)
        ensures
            r@ == factory_hashed(self@, string.spec_bytes()),
    {
        self.with_hash_of_bytes(string.as_bytes())
    }

    /// The source for a key given as its UTF-8 bytes.
    pub fn with_hash_of_bytes(&self, key: &[u8]) -> (r: RandomSource)
        ensures
            r@ == factory_hashed(self@, key@),
    {
        match self {
            PositionalRandomFactory::Legacy(f) => RandomSource::Legacy(f.with_hash_of_bytes(key)),
            PositionalRandomFactory::Xoroshiro(f) => RandomSource::Xoroshiro(
                f.with_hash_of_bytes(key),
            ),
        }
    }

    pub fn kind(&self) -> (r: Kind)
        ensures
            r == factory_kind_of(self@),
    {
        match self {
            PositionalRandomFactory::Legacy(_) => Kind::LegacyRandom,
            PositionalRandomFactory::Xoroshiro(_) => Kind::Xoroshiro,
        }
    }
}

} // verus!
