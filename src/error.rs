use vstd::prelude::*;

verus! {

/// Why a selection or a generation could not be carried out.
#[derive(Clone, Copy, Debug, PartialEq, Eq, Structural)]
pub enum EvolutionError {
    /// The population holds no individual.
    EmptyPopulation,
    /// The population is not empty, but its fitness values sum to zero.
    DegeneratePopulation,
}

} // verus!
