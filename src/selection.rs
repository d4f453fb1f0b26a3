use crate::error::EvolutionError;
use crate::individual::{fitnesses, Individual};
use crate::random::{choose_weighted_index, sum_weights};
use rand::rngs::StdRng;
use vstd::prelude::*;

verus! {

/// A way of choosing one member of a population, biased by fitness.
pub trait SelectionMethod {
    /// Whether a population with these fitness values can be selected from.
    spec fn admits(&self, fitness: Seq<u64>) -> bool;

    /// Whether the member at `index` may be the one chosen.
    spec fn may_select(&self, fitness: Seq<u64>, index: int) -> bool;

    /// Chooses a member and returns its position.
    fn select<G, T: Individual<G>>(&self, population: &[T], rng: &mut StdRng) -> (r: Result<
        usize,
        EvolutionError,
    >)
        requires
            sum_weights(fitnesses(population@)) <= u64::MAX,
        ensures
            r is Ok <==> self.admits(fitnesses(population@)),
            r matches Ok(i) ==> i < population@.len() && self.may_select(
                fitnesses(population@),
                i as int,
            ),
            r is Err && population@.len() == 0 ==> r == Err::<usize, _>(
                EvolutionError::EmptyPopulation,
            ),
            r is Err && population@.len() > 0 ==> r == Err::<usize, _>(
                EvolutionError::DegeneratePopulation,
            ),
    ;
}

/// Fitness-proportionate selection: each member is drawn with probability
/// equal to its share of the total fitness.
#[derive(Clone, Copy, Debug)]
pub struct RouletteWheelSelection;

impl SelectionMethod for RouletteWheelSelection {
    open spec fn admits(&self, fitness: Seq<u64>) -> bool {
        sum_weights(fitness) > 0
    }

    open spec fn may_select(&self, fitness: Seq<u64>, index: int) -> bool {
        fitness[index] > 0
    }

    fn select<G, T: Individual<G>>(&self, population: &[T], rng: &mut StdRng) -> (r: Result<
        usize,
        EvolutionError,
    >) {
        if population.len() == 0 {
            return Err(EvolutionError::EmptyPopulation);
        }
        let mut weights: Vec<u64> = Vec::new();
        let mut i: usize = 0;
        while i < population.len()
            invariant
                i <= population@.len(),
                weights@ == fitnesses(population@).take(i as int),
            decreases population@.len() - i,
        {
            let w = population[i].fitness();
            weights.push(w);
            i = i + 1;
            assert(weights@ =~= fitnesses(population@).take(i as int));
        }
        assert(weights@ =~= fitnesses(population@));
        match choose_weighted_index(&weights, rng) {
            Ok(index) => Ok(index),
            Err(_) => Err(EvolutionError::DegeneratePopulation),
        }
    }
}

proof fn lemma_sum_bounds_each(w: Seq<u64>, k: int)
    requires
        0 <= k < w.len(),
    ensures
        sum_weights(w) >= w[k],
    decreases w.len(),
{
    lemma_sum_nonnegative(w.drop_last());
    if k < w.len() - 1 {
        lemma_sum_bounds_each(w.drop_last(), k);
    }
}

proof fn lemma_sum_nonnegative(w: Seq<u64>)
    ensures
        sum_weights(w) >= 0,
    decreases w.len(),
{
    if w.len() > 0 {
        lemma_sum_nonnegative(w.drop_last());
    }
}

proof fn lemma_sum_of_zeros(w: Seq<u64>)
    requires
        forall|i: int| 0 <= i < w.len() ==> w[i] == 0,
    ensures
        sum_weights(w) == 0,
    decreases w.len(),
{
    if w.len() > 0 {
        lemma_sum_of_zeros(w.drop_last());
    }
}

/// When exactly one member of a population has nonzero fitness,
/// roulette-wheel selection succeeds and can pick no other member.
pub proof fn roulette_picks_the_only_fit_member<G, T: Individual<G>>(population: Seq<T>, k: int)
    requires
        0 <= k < population.len(),
        population[k].spec_fitness() > 0,
        forall|i: int|
            0 <= i < population.len() && i != k ==> #[trigger] population[i].spec_fitness() == 0,
    ensures
        RouletteWheelSelection.admits(fitnesses(population)),
        forall|i: int|
            0 <= i < population.len() && RouletteWheelSelection.may_select(
                fitnesses(population),
                i,
            ) ==> i == k,
{
    lemma_sum_bounds_each(fitnesses(population), k);
}

/// Roulette-wheel selection refuses a population that is empty or whose
/// fitness values are all zero.
pub proof fn roulette_refuses_zero_total<G, T: Individual<G>>(population: Seq<T>)
    requires
        forall|i: int| 0 <= i < population.len() ==> #[trigger] population[i].spec_fitness() == 0,
    ensures
        !RouletteWheelSelection.admits(fitnesses(population)),
{
    lemma_sum_of_zeros(fitnesses(population));
}

} // verus!
