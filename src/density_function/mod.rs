use vstd::prelude::*;

pub mod noise;
pub mod resolve;

verus! {

/// The pointwise operation of a binary node.
#[derive(Clone, Copy, Debug, PartialEq, Eq, Structural)]
pub enum Operation {
    Add,
    Multiply,
    Min,
    Max,
}

/// Why a density function could not be compiled.
#[derive(Clone, Copy, Debug, PartialEq, Eq, Structural)]
pub enum CompileError {
    /// A reference leads back to itself.
    ReferenceCycle,
}

/// The rarity mapping of a weird scaled sampler.
#[derive(Clone, Copy, Debug, PartialEq, Eq, Structural)]
pub enum RarityValueMapper {
    Type1,
    Type2,
}

} // verus!
