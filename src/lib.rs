// An evolutionary-optimization core: fitness-proportionate selection,
// uniform crossover and a generational driver over fixed-length chromosomes,
// with the strategies given as traits.

pub mod algorithm;
pub mod chromosome;
pub mod crossover;
pub mod error;
pub mod individual;
pub mod mutation;
pub mod random;
pub mod selection;

pub use algorithm::GeneticAlgorithm;
pub use chromosome::Chromosome;
pub use crossover::{CrossoverMethod, UniformCrossover};
pub use error::EvolutionError;
pub use individual::Individual;
pub use mutation::MutationMethod;
pub use selection::{RouletteWheelSelection, SelectionMethod};
