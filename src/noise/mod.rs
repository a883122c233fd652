use vstd::prelude::*;

pub mod improved_noise;
pub mod normal;
pub mod perlin;
pub mod settings;

verus! {

/// Why a noise could not be built.
#[derive(Clone, Copy, Debug, PartialEq, Eq, Structural)]
pub enum NoiseError {
    /// The construction asked for is not provided.
    Unimplemented,
}

} // verus!
