//! The quantile strategy: buckets separated by pre-sorted cut points.

use vstd::prelude::*;
use crate::bucketize::{Bucketize, BucketizeSingle};
use crate::element::BucketOrd;

verus! {

/// Bins data of type `T` into quantile buckets.
///
/// The caller supplies a pre-sorted ascending sequence of cut points and
/// the intended number of quantile groups (informational only: exposed via
/// [`Self::get_n_quantiles`] but never consulted when bucketizing). The
/// index of a value is the position of the first cut point strictly
/// greater than it, or `quantiles.len()` — the implicit final,
/// unbounded-above bucket — when no cut point exceeds it. A value exactly
/// equal to a cut point is not below it, so it falls into the bucket after
/// that cut point. Sortedness of the cut points is not checked: an
/// unsorted sequence still gets the literal scan semantics below.
#[derive(Clone, Debug)]
pub struct QuantileBucketizer<T: BucketOrd> {
    quantiles: Vec<T>,
    n_quantiles: usize,
}

impl<T: BucketOrd> QuantileBucketizer<T> {
    /// The cut points this instance was built with.
    pub closed spec fn quantiles_spec(&self) -> Seq<T> {
        self.quantiles@
    }

    /// The informational quantile-group count this instance was built with.
    pub closed spec fn n_quantiles_spec(&self) -> usize {
        self.n_quantiles
    }

    /// Creates a new `QuantileBucketizer` with the given cut points and
    /// intended number of quantile groups.
    pub fn new(quantiles: Vec<T>, n_quantiles: usize) -> (r: Self)
        ensures
            r.quantiles_spec() == quantiles@,
            r.n_quantiles_spec() == n_quantiles,
    {
        QuantileBucketizer { quantiles, n_quantiles }
    }

    /// Returns the number of quantile groups this instance was built with.
    pub fn get_n_quantiles(&self) -> (r: usize)
        ensures
            r == self.n_quantiles_spec(),
    {
        self.n_quantiles
    }
}

impl<T: BucketOrd> BucketizeSingle<T> for QuantileBucketizer<T> {
    open spec fn bucketize_req(&self, value: T) -> bool {
        true
    }

    open spec fn bucketize_post(&self, value: T, index: usize) -> bool {
        &&& index <= self.quantiles_spec().len()
        &&& forall|j: int|
            0 <= j < index ==> !value.lt_spec(#[trigger] self.quantiles_spec()[j])
        &&& index < self.quantiles_spec().len() ==> value.lt_spec(
            self.quantiles_spec()[index as int],
        )
    }

    /// Bucketizes a single value: a linear scan for the first cut point
    /// strictly greater than it; its position is the index, or the number
    /// of cut points when none exceeds the value.
    fn bucketize(&self, item: &T) -> (index: usize) {
        let n: usize = self.quantiles.len();
        let mut pos: usize = 0;
        while pos < n
            invariant
                n == self.quantiles_spec().len(),
                pos <= n,
                forall|j: int|
                    0 <= j < pos ==> !item.lt_spec(#[trigger] self.quantiles_spec()[j]),
            decreases n - pos,
        {
            if item.lt(&self.quantiles[pos]) {
                return pos;
            }
            pos = pos + 1;
        }
        pos
    }
}

impl<T: BucketOrd> Bucketize<T> for QuantileBucketizer<T> {
}

/// Same value, same instance, same index: the quantile strategy is
/// deterministic, because the index is pinned to the first cut point
/// above the value.
pub proof fn lemma_quantile_deterministic<T: BucketOrd>(
    b: QuantileBucketizer<T>,
    value: T,
    i1: usize,
    i2: usize,
)
    requires
        b.bucketize_post(value, i1),
        b.bucketize_post(value, i2),
    ensures
        i1 == i2,
{
    if i1 < i2 {
        assert(value.lt_spec(b.quantiles_spec()[i1 as int]));
        assert(!value.lt_spec(b.quantiles_spec()[i1 as int]));
    }
    if i2 < i1 {
        assert(value.lt_spec(b.quantiles_spec()[i2 as int]));
        assert(!value.lt_spec(b.quantiles_spec()[i2 as int]));
    }
}

} // verus!
