//! The range strategy: explicit per-bucket intervals.

use vstd::prelude::*;
use crate::bucketize::{Bucketize, BucketizeSingle};
use crate::element::BucketOrd;

verus! {

/// Whether `value` lies in the half-open interval `range`: at or above its
/// inclusive lower bound and strictly below its exclusive upper bound.
pub open spec fn range_contains<T: BucketOrd>(range: (T, T), value: T) -> bool {
    !value.lt_spec(range.0) && value.lt_spec(range.1)
}

/// Bins data of type `T` by a caller-supplied list of ranges.
///
/// Each range is an `(inclusive lower, exclusive upper)` pair, one per
/// bucket, given in intended index order. The index of a value is the
/// position of the first range containing it; a value matching no range
/// falls back to the last bucket index rather than failing — "beyond the
/// covered ranges" clamps high. Overlaps and gaps between the ranges are
/// not checked: the literal scan below decides.
pub struct RangeBucketizer<T: BucketOrd> {
    ranges: Vec<(T, T)>,
}

impl<T: BucketOrd> RangeBucketizer<T> {
    /// The ranges this instance was built with.
    pub closed spec fn ranges_spec(&self) -> Seq<(T, T)> {
        self.ranges@
    }

    /// Creates a new `RangeBucketizer` with the given list of ranges, one
    /// per bucket in intended index order.
    pub fn new(ranges: Vec<(T, T)>) -> (r: Self)
        ensures
            r.ranges_spec() == ranges@,
    {
        RangeBucketizer { ranges }
    }
}

impl<T: BucketOrd> BucketizeSingle<T> for RangeBucketizer<T> {
    open spec fn bucketize_req(&self, value: T) -> bool {
        self.ranges_spec().len() >= 1
    }

    open spec fn bucketize_post(&self, value: T, index: usize) -> bool {
        &&& index < self.ranges_spec().len()
        &&& {
            ||| {
                &&& range_contains(self.ranges_spec()[index as int], value)
                &&& forall|j: int|
                    0 <= j < index ==> !range_contains(#[trigger] self.ranges_spec()[j], value)
            }
            ||| {
                &&& index == self.ranges_spec().len() - 1
                &&& forall|j: int|
                    0 <= j < self.ranges_spec().len() ==> !range_contains(
                        #[trigger] self.ranges_spec()[j],
                        value,
                    )
            }
        }
    }

    /// Bucketizes a single value: a linear scan for the first range
    /// containing it, falling back to the last bucket index when none
    /// does.
    fn bucketize(&self, item: &T) -> (index: usize) {
        let n: usize = self.ranges.len();
        let mut pos: usize = 0;
        while pos < n
            invariant
                n == self.ranges_spec().len(),
                pos <= n,
                forall|j: int|
                    0 <= j < pos ==> !range_contains(#[trigger] self.ranges_spec()[j], *item),
            decreases n - pos,
        {
            let (start, end) = self.ranges[pos];
            if !item.lt(&start) && item.lt(&end) {
                return pos;
            }
            pos = pos + 1;
        }
        n - 1
    }
}

impl<T: BucketOrd> Bucketize<T> for RangeBucketizer<T> {
}

/// Same value, same instance, same index: the range strategy is
/// deterministic, because the index is pinned to the first containing
/// range, or to the last bucket when none contains the value.
pub proof fn lemma_range_deterministic<T: BucketOrd>(
    b: RangeBucketizer<T>,
    value: T,
    i1: usize,
    i2: usize,
)
    requires
        b.bucketize_post(value, i1),
        b.bucketize_post(value, i2),
    ensures
        i1 == i2,
{
    if i1 != i2 {
        if range_contains(b.ranges_spec()[i1 as int], value) {
            if range_contains(b.ranges_spec()[i2 as int], value) {
                if i1 < i2 {
                    assert(!range_contains(b.ranges_spec()[i1 as int], value));
                } else {
                    assert(!range_contains(b.ranges_spec()[i2 as int], value));
                }
            } else {
                assert(!range_contains(b.ranges_spec()[i1 as int], value));
            }
        } else {
            assert(i1 == b.ranges_spec().len() - 1);
            assert(forall|j: int|
                0 <= j < b.ranges_spec().len() ==> !range_contains(
                    #[trigger] b.ranges_spec()[j],
                    value,
                ));
            assert(i2 == b.ranges_spec().len() - 1);
        }
    }
}

} // verus!
