use crate::chromosome::Chromosome;
use crate::random::flip_coin;
use rand::rngs::StdRng;
use vstd::prelude::*;

verus! {

/// A way of combining two parent chromosomes of equal length into a child.
pub trait CrossoverMethod<G: Copy> {
    /// Whether `child` is an outcome this method allows for parents `a`, `b`.
    spec fn may_produce(&self, a: Seq<G>, b: Seq<G>, child: Seq<G>) -> bool;

    fn crossover(&self, rng: &mut StdRng, parent_a: &Chromosome<G>, parent_b: &Chromosome<G>) -> (r: Chromosome<G>)
        requires
            parent_a@.len() == parent_b@.len(),
        ensures
            r@.len() == parent_a@.len(),
            self.may_produce(parent_a@, parent_b@, r@),
    ;
}

/// The child of uniform crossover for one sequence of coin flips: at each
/// position the gene of `a` where the coin shows heads (`true`), else the
/// gene of `b`.
pub open spec fn uniform_child<G>(a: Seq<G>, b: Seq<G>, heads: Seq<bool>) -> Seq<G> {
    Seq::new(a.len(), |i: int| if heads[i] { a[i] } else { b[i] })
}

/// Uniform crossover: every gene is copied from one parent or the other,
/// with one fair coin flip per position.
#[derive(Clone, Copy, Debug)]
pub struct UniformCrossover;

impl UniformCrossover {
    pub fn new() -> (r: Self)
        ensures
            r == UniformCrossover,
    {
        UniformCrossover
    }

    /// The child for the given coin flips, one per position.
    pub fn crossover_with_coins<G: Copy>(
        &self,
        parent_a: &Chromosome<G>,
        parent_b: &Chromosome<G>,
        heads: &Vec<bool>,
    ) -> (r: Chromosome<G>)
        requires
            parent_a@.len() == parent_b@.len(),
            heads@.len() == parent_a@.len(),
        ensures
            r@ == uniform_child(parent_a@, parent_b@, heads@),
    {
        let n = parent_a.len();
        let mut genes: Vec<G> = Vec::new();
        let mut i: usize = 0;
        while i < n
            invariant
                n == parent_a@.len(),
                parent_a@.len() == parent_b@.len(),
                heads@.len() == parent_a@.len(),
                i <= n,
                genes@ == uniform_child(parent_a@, parent_b@, heads@).take(i as int),
            decreases n - i,
        {
            let gene = if heads[i] {
                parent_a.get(i).unwrap()
            } else {
                parent_b.get(i).unwrap()
            };
            genes.push(gene);
            i = i + 1;
            assert(genes@ =~= uniform_child(parent_a@, parent_b@, heads@).take(i as int));
        }
        assert(genes@ =~= uniform_child(parent_a@, parent_b@, heads@));
        Chromosome::from_genes(genes)
    }
}

impl<G: Copy> CrossoverMethod<G> for UniformCrossover {
    open spec fn may_produce(&self, a: Seq<G>, b: Seq<G>, child: Seq<G>) -> bool {
        exists|heads: Seq<bool>| heads.len() == a.len() && child == uniform_child(a, b, heads)
    }

    fn crossover(&self, rng: &mut StdRng, parent_a: &Chromosome<G>, parent_b: &Chromosome<G>) -> (r: Chromosome<G>) {
        let n = parent_a.len();
        let mut heads: Vec<bool> = Vec::new();
        let mut i: usize = 0;
        while i < n
            invariant
                i <= n,
                heads@.len() == i,
            decreases n - i,
        {
            heads.push(flip_coin(rng));
            i = i + 1;
        }
        let r = self.crossover_with_coins(parent_a, parent_b, &heads);
        assert(heads@.len() == parent_a@.len() && r@ == uniform_child(parent_a@, parent_b@, heads@));
        r
    }
}

} // verus!
