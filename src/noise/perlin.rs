use vstd::prelude::*;

use crate::noise::improved_noise::{improved_noise_of, ImprovedNoise};
use crate::noise::NoiseError;
use crate::random::{factory_hashed, forked_positional, FactoryState, RandomSource};

verus! {

/// The decimal digits of `n`, most significant first, as ASCII bytes.
pub open spec fn digits(n: nat) -> Seq<u8>
    decreases n,
{
    if n < 10 {
        seq![(48 + n) as u8]
    } else {
        digits(n / 10).push((48 + n % 10) as u8)
    }
}

/// `n` written in decimal, with a leading `-` when negative.
pub open spec fn decimal(n: int) -> Seq<u8> {
    if n < 0 {
        seq![45u8] + digits((-n) as nat)
    } else {
        digits(n as nat)
    }
}

/// The key `"octave_" + n` that seeds the octave at frequency `2^n`.
pub open spec fn octave_key_of(n: int) -> Seq<u8> {
    seq![111u8, 99u8, 116u8, 97u8, 118u8, 101u8, 95u8] + decimal(n)
}

fn push_digits(v: &mut Vec<u8>, n: u32)
    ensures
        final(v)@ == old(v)@ + digits(n as nat),
    decreases n,
{
    if n >= 10 {
        push_digits(v, n / 10);
    }
    v.push((48 + n % 10) as u8);
    proof {
        if n < 10 {
            assert(n % 10 == n);
        }
        assert(final(v)@ =~= old(v)@ + digits(n as nat));
    }
}

/// The key of the octave at frequency `2^n`, as bytes.
pub fn octave_key(n: i32) -> (r: Vec<u8>)
    ensures
        r@ == octave_key_of(n as int),
{
    let mut v: Vec<u8> = Vec::new();
    v.push(111u8);
    v.push(99u8);
    v.push(116u8);
    v.push(97u8);
    v.push(118u8);
    v.push(101u8);
    v.push(95u8);
    if n < 0 {
        v.push(45u8);
        push_digits(&mut v, (-(n as i64)) as u32);
    } else {
        push_digits(&mut v, n as u32);
    }
    assert(v@ =~= octave_key_of(n as int));
    v
}

/// The noise of octave `i` of a sum whose lowest octave is `first_octave`, built
/// from factory `f`.
pub open spec fn octave_noise_of(f: FactoryState, first_octave: int, i: int) -> (
    Seq<u8>,
    (i64, i64, i64),
) {
    improved_noise_of(factory_hashed(f, octave_key_of(first_octave + i))).0
}

/// A sum of octaves of gradient noise. Octave `i` samples at frequency
/// `2^(first_octave + i)`; it is present where its amplitude is not zero.
pub struct PerlinNoise {
    noise_levels: Vec<Option<ImprovedNoise>>,
    first_octave: i32,
}

impl PerlinNoise {
    pub closed spec fn levels(&self) -> Seq<Option<ImprovedNoise>> {
        self.noise_levels@
    }

    pub closed spec fn spec_first_octave(&self) -> i32 {
        self.first_octave
    }

    /// This noise is what `new` builds from factory `f` for `first_octave` and
    /// `active`.
    pub open spec fn built_from(&self, f: FactoryState, first_octave: i32, active: Seq<bool>) -> bool {
        &&& self.spec_first_octave() == first_octave
        &&& self.wf()
        &&& self.levels().len() == active.len()
        &&& forall|i: int| 0 <= i < active.len() ==> (#[trigger] self.levels()[i] is Some) == active[i]
        &&& forall|i: int|
            0 <= i < active.len() && active[i] ==> (#[trigger] self.levels()[i])->0@
                == octave_noise_of(f, first_octave as int, i)
    }

    /// Every present octave has a well-formed table.
    pub open spec fn wf(&self) -> bool {
        forall|i: int|
            0 <= i < self.levels().len() && #[trigger] self.levels()[i] is Some ==> self.levels()[i]->0.wf()
    }

    /// Builds the octaves from a positional factory forked from `r`: octave `i` is
    /// present iff `active[i]`, and is seeded from the factory's source for
    /// `"octave_" + (first_octave + i)`.
    pub fn new(r: &mut RandomSource, first_octave: i32, active: &Vec<bool>) -> (p: PerlinNoise)
        requires
            first_octave + active@.len() <= i32::MAX + 1,
        ensures
            final(r)@ == forked_positional(old(r)@).1,
            p.built_from(forked_positional(old(r)@).0, first_octave, active@),
    {
        let factory = r.fork_positional();
        let mut noise_levels: Vec<Option<ImprovedNoise>> = Vec::new();
        let mut i: usize = 0;
        while i < active.len()
            invariant
                i <= active@.len(),
                first_octave + active@.len() <= i32::MAX + 1,
                factory@ == forked_positional(old(r)@).0,
                noise_levels@.len() == i,
                forall|n: int|
                    0 <= n < i ==> (#[trigger] noise_levels@[n] is Some) == active@[n],
                forall|n: int|
                    0 <= n < i && #[trigger] noise_levels@[n] is Some ==> noise_levels@[n]->0.wf(),
                forall|n: int|
                    0 <= n < i && active@[n] ==> (#[trigger] noise_levels@[n])->0@
                        == octave_noise_of(factory@, first_octave as int, n),
            decreases active@.len() - i,
        {
            let ghost before = noise_levels@;
            if active[i] {
                let octave: i64 = first_octave as i64 + i as i64;
                let key = octave_key(octave as i32);
                let mut source = factory.with_hash_of_bytes(key.as_slice());
                assert(source@ == factory_hashed(factory@, octave_key_of(first_octave + i)));
                let level = ImprovedNoise::new(&mut source);
                assert(level@ == octave_noise_of(factory@, first_octave as int, i as int));
                noise_levels.push(Some(level));
            } else {
                noise_levels.push(None);
            }
            assert(forall|n: int| 0 <= n < i ==> noise_levels@[n] == before[n]);
            i = i + 1;
        }
        PerlinNoise { noise_levels, first_octave }
    }

    /// The variant that legacy sources call for; it is not provided.
    pub fn new_legacy_nether(_r: &mut RandomSource, _first_octave: i32, _active: &Vec<bool>) -> (p:
        Result<PerlinNoise, NoiseError>)
        ensures
            p == Err::<PerlinNoise, NoiseError>(NoiseError::Unimplemented),
            final(_r)@ == old(_r)@,
    {
        Err(NoiseError::Unimplemented)
    }

    pub fn first_octave(&self) -> (r: i32)
        ensures
            r == self.spec_first_octave(),
    {
        self.first_octave
    }

    /// Number of octaves, present or not.
    pub fn len(&self) -> (r: usize)
        ensures
            r == self.levels().len(),
    {
        self.noise_levels.len()
    }

    /// Octave `i`, if present.
    pub fn level(&self, i: usize) -> (r: &Option<ImprovedNoise>)
        requires
            i < self.levels().len(),
        ensures
            *r == self.levels()[i as int],
    {
        &self.noise_levels[i]
    }
}

} // verus!
