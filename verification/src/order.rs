//! Putting things into order by a number: messages by their age, what was
//! drawn by its layer.

use rayon::slice::ParallelSliceMut;
use vstd::prelude::*;
use crate::layer::Layer;

verus! {

/// Whether the pair `a` comes no later than the pair `b`: by the first
/// part, and among equal first parts by the second.
pub open spec fn pair_le(a: (i128, usize), b: (i128, usize)) -> bool {
    a.0 < b.0 || (a.0 == b.0 && a.1 <= b.1)
}

/// Whether the pairs stand in order.
pub open spec fn pairs_sorted(s: Seq<(i128, usize)>) -> bool {
    forall|i: int, j: int| 0 <= i < j < s.len() ==> pair_le(s[i], s[j])
}

/// `rayon`'s `par_sort` puts the elements of a slice into ascending order:
/// afterwards the slice holds what it held before, and no element is
/// followed by a smaller one. Pairs of integers are ordered by their first
/// part, and among equal first parts by their second.
#[verifier::external_body]
pub(crate) fn sort_pairs(v: &mut Vec<(i128, usize)>)
    ensures
        final(v)@.to_multiset() == old(v)@.to_multiset(),
        pairs_sorted(final(v)@),
{
    v.par_sort();
}

/// For each layer of a list, its place in the stack and its position in
/// the list.
pub open spec fn ranks(layers: Seq<Layer>) -> Seq<(i128, usize)> {
    Seq::new(layers.len(), |i: int| (layers[i].spec_rank() as i128, i as usize))
}

/// The order in which what was drawn on the layers of a list is put on the
/// surface: the lowest layer first, and what lies on one layer in the order
/// in which it was drawn. For each thing, the place of its layer and its
/// position in the list are handed back.
pub fn draw_order(layers: &Vec<Layer>) -> (r: Vec<(i128, usize)>)
    ensures
        r@.to_multiset() == ranks(layers@).to_multiset(),
        pairs_sorted(r@),
{
    let mut pairs: Vec<(i128, usize)> = Vec::new();
    let mut i: usize = 0;
    while i < layers.len()
        invariant
            i <= layers.len(),
            pairs.len() == i,
            forall|j: int| 0 <= j < i ==> pairs@[j] == ranks(layers@)[j],
        decreases layers.len() - i,
    {
        pairs.push((layers[i].rank() as i128, i));
        i += 1;
    }
    assert(pairs@ =~= ranks(layers@));
    sort_pairs(&mut pairs);
    pairs
}

} // verus!
