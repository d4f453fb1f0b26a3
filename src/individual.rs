use crate::chromosome::Chromosome;
use vstd::prelude::*;

verus! {

/// A candidate solution of the caller's domain: it reports a fitness, shows
/// its chromosome, and can be rebuilt from a chromosome.
///
/// An implementation compiled outside the verifier writes the two spec
/// functions as ordinary functions (the fitness value and a copy of the
/// chromosome); they are never run by this library.
pub trait Individual<G>: Sized {
    /// The fitness that `fitness` reports; it does not change between calls.
    spec fn spec_fitness(&self) -> u64;

    /// The chromosome that `chromosome` shows.
    spec fn spec_chromosome(&self) -> Chromosome<G>;

    fn fitness(&self) -> (r: u64)
        ensures
            r == self.spec_fitness(),
    ;

    fn chromosome(&self) -> (r: &Chromosome<G>)
        ensures
            *r == self.spec_chromosome(),
    ;

    fn from_chromosome(chromosome: Chromosome<G>) -> (r: Self)
        ensures
            r.spec_chromosome()@ == chromosome@,
    ;
}

/// The fitness of each individual, in population order.
pub open spec fn fitnesses<G, T: Individual<G>>(population: Seq<T>) -> Seq<u64> {
    Seq::new(population.len(), |i: int| population[i].spec_fitness())
}

/// Every individual of the population carries `len` genes.
pub open spec fn uniform_length<G, T: Individual<G>>(population: Seq<T>, len: nat) -> bool {
    forall|i: int| 0 <= i < population.len() ==> (#[trigger] population[i].spec_chromosome())@.len() == len
}

} // verus!
