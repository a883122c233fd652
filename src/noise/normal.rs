use vstd::prelude::*;

use crate::noise::perlin::PerlinNoise;
use crate::noise::NoiseError;
use crate::random::{forked_positional, kind_of, Kind, RandomSource};

verus! {

/// The first and last index at which `active` holds, if it holds anywhere.
pub open spec fn is_active_range(active: Seq<bool>, r: Option<(usize, usize)>) -> bool {
    match r {
        None => forall|i: int| 0 <= i < active.len() ==> !active[i],
        Some((lo, hi)) => {
            &&& lo <= hi < active.len()
            &&& active[lo as int]
            &&& active[hi as int]
            &&& forall|i: int| 0 <= i < active.len() && active[i] ==> lo <= i <= hi
        },
    }
}

/// The number of octaves from the first present one to the last; `2` when none is
/// present, which is what the wrapping 32-bit difference of the empty bounds gives.
pub open spec fn octave_count_of(r: Option<(usize, usize)>) -> int {
    match r {
        None => 2,
        Some((lo, hi)) => hi - lo + 1,
    }
}

pub fn active_range(active: &Vec<bool>) -> (r: Option<(usize, usize)>)
    ensures
        is_active_range(active@, r),
{
    let mut r: Option<(usize, usize)> = None;
    let mut i: usize = 0;
    while i < active.len()
        invariant
            i <= active@.len(),
            is_active_range(active@.subrange(0, i as int), r),
        decreases active@.len() - i,
    {
        if active[i] {
            r = match r {
                None => Some((i, i)),
                Some((lo, _)) => Some((lo, i)),
            };
        }
        i = i + 1;
        assert(active@.subrange(0, i as int).drop_last() =~= active@.subrange(0, i - 1));
    }
    assert(active@.subrange(0, i as int) =~= active@);
    r
}

/// Two octave sums with the same parameters, the second sampled at a slightly
/// stretched position.
pub struct NormalNoise {
    first: PerlinNoise,
    second: PerlinNoise,
    range: Option<(usize, usize)>,
}

impl NormalNoise {
    pub closed spec fn spec_first(&self) -> &PerlinNoise {
        &self.first
    }

    pub closed spec fn spec_second(&self) -> &PerlinNoise {
        &self.second
    }

    pub closed spec fn spec_range(&self) -> Option<(usize, usize)> {
        self.range
    }

    /// The octave range lies within the 32-bit octave numbers.
    pub open spec fn wf(&self) -> bool {
        match self.spec_range() {
            None => true,
            Some((lo, hi)) => lo <= hi < 0x1_0000_0000,
        }
    }

    /// Builds both sums from `r`, the first before the second. Only xoroshiro
    /// sources are supported.
    pub fn new(r: &mut RandomSource, first_octave: i32, active: &Vec<bool>) -> (n: Result<
        NormalNoise,
        NoiseError,
    >)
        requires
            first_octave + active@.len() <= i32::MAX + 1,
        ensures
            kind_of(old(r)@) == Kind::LegacyRandom ==> n == Err::<NormalNoise, NoiseError>(
                NoiseError::Unimplemented,
            ) && final(r)@ == old(r)@,
            kind_of(old(r)@) == Kind::Xoroshiro ==> n is Ok && {
                let mid = forked_positional(old(r)@).1;
                let nn = n->Ok_0;
                &&& nn.spec_first().built_from(
                    forked_positional(old(r)@).0,
                    first_octave,
                    active@,
                )
                &&& nn.spec_second().built_from(forked_positional(mid).0, first_octave, active@)
                &&& final(r)@ == forked_positional(mid).1
                &&& is_active_range(active@, nn.spec_range())
                &&& nn.wf()
            },
    {
        match r.kind() {
            Kind::Xoroshiro => {
                let first = PerlinNoise::new(r, first_octave, active);
                let second = PerlinNoise::new(r, first_octave, active);
                let range = active_range(active);
                Ok(NormalNoise { first, second, range })
            },
            Kind::LegacyRandom => {
                let first = PerlinNoise::new_legacy_nether(r, first_octave, active)?;
                let second = PerlinNoise::new_legacy_nether(r, first_octave, active)?;
                let range = active_range(active);
                Ok(NormalNoise { first, second, range })
            },
        }
    }

    pub fn first(&self) -> (r: &PerlinNoise)
        ensures
            r == self.spec_first(),
    {
        &self.first
    }

    pub fn second(&self) -> (r: &PerlinNoise)
        ensures
            r == self.spec_second(),
    {
        &self.second
    }

    /// The number of octaves between the first and the last present one, both
    /// included; it sets the expected deviation of the sum.
    pub fn octave_count(&self) -> (r: i64)
        requires
            self.wf(),
        ensures
            r == octave_count_of(self.spec_range()),
    {
        match self.range {
            None => 2,
            Some((lo, hi)) => {
                (hi - lo) as i64 + 1
            },
        }
    }
}

} // verus!
