use vstd::prelude::*;
use vstd::string::StringSliceAdditionalSpecFns;

use crate::random::{
    factory_hashed, forked_positional, seeded, FactoryState, Kind, PositionalRandomFactory,
    RandomSource,
};

verus! {

/// The root factory of a world: a source of `kind` seeded with `seed`, forked into
/// a positional factory.
pub open spec fn root_factory_of(kind: Kind, seed: i64) -> FactoryState {
    forked_positional(seeded(kind, seed)).0
}

/// A factory derived from `root`: the source for `key`, forked into a positional
/// factory.
pub open spec fn derived_factory_of(root: FactoryState, key: Seq<u8>) -> FactoryState {
    forked_positional(factory_hashed(root, key)).0
}

/// The random factories of one world seed.
pub struct RandomState {
    random: PositionalRandomFactory,
    seed: i64,
    aquifer_random: PositionalRandomFactory,
    ore_random: PositionalRandomFactory,
}

impl RandomState {
    pub fn new(kind: Kind, seed: i64) -> (r: RandomState)
        ensures
            r.seed() == seed,
            r.random()@ == root_factory_of(kind, seed),
            r.aquifer_random()@ == derived_factory_of(
                root_factory_of(kind, seed),
                "aquifer".spec_bytes(),
            ),
            r.ore_random()@ == derived_factory_of(root_factory_of(kind, seed), "ore".spec_bytes()),
    {
        let random = kind.new_instance(seed).fork_positional();
        let aquifer_random = random.with_hash_of("aquifer").fork_positional();
        let ore_random = random.with_hash_of("ore").fork_positional();
        RandomState { random, seed, aquifer_random, ore_random }
    }

    pub closed spec fn seed(&self) -> i64 {
        self.seed
    }

    pub closed spec fn random(&self) -> &PositionalRandomFactory {
        &self.random
    }

    pub closed spec fn aquifer_random(&self) -> &PositionalRandomFactory {
        &self.aquifer_random
    }

    pub closed spec fn ore_random(&self) -> &PositionalRandomFactory {
        &self.ore_random
    }

    pub fn get_seed(&self) -> (r: i64)
        ensures
            r == self.seed(),
    {
        self.seed
    }

    /// The root factory.
    pub fn root_factory(&self) -> (r: &PositionalRandomFactory)
        ensures
            r == self.random(),
    {
        &self.random
    }

    pub fn aquifer_factory(&self) -> (r: &PositionalRandomFactory)
        ensures
            r == self.aquifer_random(),
    {
        &self.aquifer_random
    }

    pub fn ore_factory(&self) -> (r: &PositionalRandomFactory)
        ensures
            r == self.ore_random(),
    {
        &self.ore_random
    }

    /// The source from which the noise named `id` is built.
    pub fn noise_source(&self, id: &str) -> (r: RandomSource)
        ensures
            r@ == factory_hashed(self.random()@, id.spec_bytes()),
    {
        self.random.with_hash_of(id)
    }
}

} // verus!
