use vstd::prelude::*;
use vstd::string::StringSliceAdditionalSpecFns;

use crate::noise::normal::NormalNoise;
use crate::noise::NoiseError;
use crate::random::random_state::RandomState;
use crate::random::{factory_hashed, forked_positional, kind_of, Kind};

verus! {

/// Builds the noise named `id` from the world's root factory: its source is the
/// factory's source for `id`, and its octaves are `first_octave` and `active` from
/// the noise's parameters.
pub fn instantiate_noise(id: &str, random_state: &RandomState, first_octave: i32, active: &Vec<bool>) -> (r:
    Result<NormalNoise, NoiseError>)
    requires
        first_octave + active@.len() <= i32::MAX + 1,
    ensures
        ({
            let s = factory_hashed(random_state.random()@, id.spec_bytes());
            &&& kind_of(s) == Kind::LegacyRandom ==> r == Err::<NormalNoise, NoiseError>(
                NoiseError::Unimplemented,
            )
            &&& kind_of(s) == Kind::Xoroshiro ==> r is Ok && (r->Ok_0).spec_first().built_from(
                forked_positional(s).0,
                first_octave,
                active@,
            ) && (r->Ok_0).spec_second().built_from(
                forked_positional(forked_positional(s).1).0,
                first_octave,
                active@,
            ) && (r->Ok_0).wf()
        }),
{
    let mut source = random_state.noise_source(id);
    NormalNoise::new(&mut source, first_octave, active)
}

} // verus!
