use crate::crossover::CrossoverMethod;
use crate::error::EvolutionError;
use crate::individual::{fitnesses, uniform_length, Individual};
use crate::mutation::MutationMethod;
use crate::random::sum_weights;
use crate::selection::SelectionMethod;
use rand::rngs::StdRng;
use vstd::prelude::*;

verus! {

/// The generational driver: it holds one selection, one crossover and one
/// mutation strategy, and builds each new generation from the last.
pub struct GeneticAlgorithm<S, C, M> {
    selection_method: S,
    crossover_method: C,
    mutation_method: M,
}

impl<S, C, M> GeneticAlgorithm<S, C, M> {
    pub closed spec fn selection(&self) -> S {
        self.selection_method
    }

    pub closed spec fn crossover(&self) -> C {
        self.crossover_method
    }

    pub closed spec fn mutation(&self) -> M {
        self.mutation_method
    }

    pub fn new(selection_method: S, crossover_method: C, mutation_method: M) -> (r: Self)
        ensures
            r.selection() == selection_method,
            r.crossover() == crossover_method,
            r.mutation() == mutation_method,
    {
        GeneticAlgorithm { selection_method, crossover_method, mutation_method }
    }
}

impl<S: SelectionMethod, C, M> GeneticAlgorithm<S, C, M> {
    /// Whether `genes` can come out of one breeding step over `population`:
    /// two parents that selection may pick, and a child that crossover may
    /// make of them, of the same length as `genes` (mutation keeps lengths).
    pub open spec fn may_breed<G: Copy, T: Individual<G>>(&self, population: Seq<T>, genes: Seq<G>) -> bool
        where
            C: CrossoverMethod<G>,
            M: MutationMethod<G>,
    {
        exists|a: int, b: int, child: Seq<G>|
            0 <= a < population.len() && 0 <= b < population.len() && #[trigger] self.selection().may_select(
                fitnesses(population),
                a,
            ) && #[trigger] self.selection().may_select(fitnesses(population), b)
                && #[trigger] self.crossover().may_produce(
                population[a].spec_chromosome()@,
                population[b].spec_chromosome()@,
                child,
            ) && genes.len() == child.len()
    }

    /// Builds the next generation, of the same size as `population`, which is
    /// left as it is. Each new individual is bred from two parents drawn by
    /// selection, crossed, mutated and rebuilt from the resulting chromosome.
    pub fn evolve<G: Copy, T: Individual<G>>(&self, population: &[T], rng: &mut StdRng) -> (r: Result<
        Vec<T>,
        EvolutionError,
    >)
        where
            C: CrossoverMethod<G>,
            M: MutationMethod<G>,
        requires
            sum_weights(fitnesses(population@)) <= u64::MAX,
            population@.len() > 0 ==> uniform_length(
                population@,
                population@[0].spec_chromosome()@.len(),
            ),
        ensures
            population@.len() == 0 ==> r == Err::<Vec<T>, _>(EvolutionError::EmptyPopulation),
            population@.len() > 0 ==> (r is Ok <==> self.selection().admits(
                fitnesses(population@),
            )),
            population@.len() > 0 && r is Err ==> r == Err::<Vec<T>, _>(
                EvolutionError::DegeneratePopulation,
            ),
            r matches Ok(next) ==> next@.len() == population@.len() && forall|j: int|
                0 <= j < next@.len() ==> self.may_breed(population@, #[trigger] next@[j].spec_chromosome()@),
    {
        if population.len() == 0 {
            return Err(EvolutionError::EmptyPopulation);
        }
        let n = population.len();
        let mut next: Vec<T> = Vec::new();
        let mut j: usize = 0;
        while j < n
            invariant
                n == population@.len(),
                n > 0,
                sum_weights(fitnesses(population@)) <= u64::MAX,
                uniform_length(population@, population@[0].spec_chromosome()@.len()),
                j <= n,
                next@.len() == j,
                j > 0 ==> self.selection().admits(fitnesses(population@)),
                forall|k: int| 0 <= k < j ==> self.may_breed(population@, #[trigger] next@[k].spec_chromosome()@),
            decreases n - j,
        {
            let a = match self.selection_method.select(population, rng) {
                Ok(a) => a,
                Err(e) => return Err(e),
            };
            let b = match self.selection_method.select(population, rng) {
                Ok(b) => b,
                Err(e) => return Err(e),
            };
            let parent_a = population[a].chromosome();
            let parent_b = population[b].chromosome();
            assert(population@[a as int].spec_chromosome()@.len() == population@[0].spec_chromosome()@.len());
            assert(population@[b as int].spec_chromosome()@.len() == population@[0].spec_chromosome()@.len());
            let mut child = self.crossover_method.crossover(rng, parent_a, parent_b);
            let ghost crossed = child@;
            self.mutation_method.mutate(rng, &mut child);
            let individual = T::from_chromosome(child);
            assert(self.may_breed(population@, individual.spec_chromosome()@)) by {
                assert(self.selection().may_select(fitnesses(population@), a as int));
                assert(self.selection().may_select(fitnesses(population@), b as int));
                assert(self.crossover().may_produce(
                    population@[a as int].spec_chromosome()@,
                    population@[b as int].spec_chromosome()@,
                    crossed,
                ));
            }
            next.push(individual);
            j = j + 1;
        }
        Ok(next)
    }
}

} // verus!
