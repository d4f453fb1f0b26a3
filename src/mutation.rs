use crate::chromosome::Chromosome;
use rand::rngs::StdRng;
use vstd::prelude::*;

verus! {

/// A way of perturbing a chromosome in place.
pub trait MutationMethod<G: Copy> {
    fn mutate(&self, rng: &mut StdRng, child: &mut Chromosome<G>)
        ensures
            final(child)@.len() == old(child)@.len(),
    ;
}

} // verus!
