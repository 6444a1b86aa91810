//! The fixed-width strategy: unbounded width-`width` buckets starting at
//! `offset`.

use vstd::prelude::*;
use crate::bucketize::{Bucketize, BucketizeSingle};
use crate::element::BucketArith;
use crate::into_usize::IntoUsize;

verus! {

/// Bins data of type `T` into fixed-width buckets.
///
/// The index of a value is `(value - offset) / width` — division
/// truncating toward zero — converted to `usize` by truncation. There is
/// no clamping: buckets extend without
/// bound on both ends. A value exactly on a boundary falls into the bucket
/// that the boundary opens. Keeping `width` nonzero is the caller's
/// responsibility; a zero width is rejected by `bucketize`'s precondition.
#[derive(Clone, Debug)]
pub struct FixedWidthBucketizer<T: BucketArith> {
    width: T,
    offset: T,
}

impl<T: BucketArith> FixedWidthBucketizer<T> {
    /// The bucket width this instance was built with.
    pub closed spec fn width_spec(&self) -> T {
        self.width
    }

    /// The offset this instance was built with.
    pub closed spec fn offset_spec(&self) -> T {
        self.offset
    }

    /// The index assigned to `value`: the truncating conversion of
    /// `(value - offset) / width`.
    pub open spec fn index_of(&self, value: T) -> usize {
        value.sub_spec(self.offset_spec()).div_spec(self.width_spec()).index_spec()
    }

    /// Creates a new `FixedWidthBucketizer` with the given bucket width and
    /// offset for the bucket boundaries.
    pub fn new(width: T, offset: T) -> (r: Self)
        ensures
            r.width_spec() == width,
            r.offset_spec() == offset,
    {
        FixedWidthBucketizer { width, offset }
    }
}

impl<T: BucketArith> BucketizeSingle<T> for FixedWidthBucketizer<T> {
    open spec fn bucketize_req(&self, value: T) -> bool {
        &&& value.sub_ok(self.offset_spec())
        &&& value.sub_spec(self.offset_spec()).div_ok(self.width_spec())
    }

    open spec fn bucketize_post(&self, value: T, index: usize) -> bool {
        index == self.index_of(value)
    }

    /// Bucketizes a single value: subtract the offset, divide by the
    /// width, truncate to an index.
    fn bucketize(&self, item: &T) -> (index: usize) {
        let adjusted_value = item.sub(&self.offset);
        let bucket_index = adjusted_value.div(&self.width);
        bucket_index.into_usize()
    }
}

impl<T: BucketArith> Bucketize<T> for FixedWidthBucketizer<T> {
}

/// Values laid out on the bucket grid land in consecutive buckets: for a
/// positive width, the value `offset + k * width` — the boundary that
/// opens bucket `k` — is assigned index `k`.
pub proof fn lemma_fixed_width_grid(b: FixedWidthBucketizer<i64>, k: i64, value: i64)
    requires
        b.width_spec() > 0,
        0 <= k <= usize::MAX,
        value == b.offset_spec() + k * b.width_spec(),
        value - b.offset_spec() <= i64::MAX,
    ensures
        b.bucketize_req(value),
        b.bucketize_post(value, k as usize),
{
    let w = b.width_spec() as int;
    let off = b.offset_spec();
    assert(k * w >= 0) by (nonlinear_arith)
        requires
            k >= 0,
            w > 0,
    ;
    let d = value.sub_spec(off);
    assert(d == k * w);
    vstd::arithmetic::div_mod::lemma_div_multiples_vanish(k as int, w);
    assert(d.div_spec(b.width_spec()) == k);
}

/// Same value, same instance, same index: the fixed-width strategy is
/// deterministic.
pub proof fn lemma_fixed_width_deterministic<T: BucketArith>(
    b: FixedWidthBucketizer<T>,
    value: T,
    i1: usize,
    i2: usize,
)
    requires
        b.bucketize_post(value, i1),
        b.bucketize_post(value, i2),
    ensures
        i1 == i2,
{
}

} // verus!
