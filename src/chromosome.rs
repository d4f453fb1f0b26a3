use vstd::prelude::*;
use vstd::std_specs::iter::IteratorSpec;

verus! {

/// An ordered, fixed-length sequence of genes: the unit of recombination
/// and mutation. Index 0 holds the first gene.
#[derive(Clone, Debug)]
pub struct Chromosome<G> {
    genes: Vec<G>,
}

impl<G> View for Chromosome<G> {
    type V = Seq<G>;

    closed spec fn view(&self) -> Seq<G> {
        self.genes@
    }
}

impl<G: Copy> Chromosome<G> {
    /// Builds a chromosome from genes, keeping their order.
    pub fn from_genes(genes: Vec<G>) -> (r: Self)
        ensures
            r@ == genes@,
    {
        Chromosome { genes }
    }

    /// Gives the genes back, in order.
    pub fn into_genes(self) -> (r: Vec<G>)
        ensures
            r@ == self@,
    {
        self.genes
    }

    /// The number of genes.
    pub fn len(&self) -> (r: usize)
        ensures
            r == self@.len(),
    {
        self.genes.len()
    }

    /// The gene at `index`, or `None` past the end.
    pub fn get(&self, index: usize) -> (r: Option<G>)
        ensures
            index < self@.len() ==> r == Some(self@[index as int]),
            index >= self@.len() ==> r is None,
    {
        if index < self.genes.len() {
            Some(self.genes[index])
        } else {
            None
        }
    }

    /// The genes, front to back, as a slice iterator.
    pub fn iter(&self) -> (r: std::slice::Iter<'_, G>)
        ensures
            r.remaining() == self@.map_values(|g: G| &g),
    {
        let r = self.genes.as_slice().iter();
        proof {
            assert(self.genes@.as_ref() =~= self@.map_values(|g: G| &g));
        }
        r
    }

    /// The genes, front to back, open to change in place; the length stays.
    pub fn iter_mut(&mut self) -> (r: &mut [G])
        ensures
            r@ == old(self)@,
            final(self)@ == final(r)@,
    {
        self.genes.as_mut_slice()
    }
}

} // verus!
