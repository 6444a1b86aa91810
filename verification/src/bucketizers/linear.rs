//! The linear strategy: a bounded range split into equally spaced buckets,
//! with clamping at both ends.

use vstd::prelude::*;
use crate::bucketize::{Bucketize, BucketizeSingle};
use crate::element::{BucketArith, BucketOrd};
use crate::into_usize::IntoUsize;

verus! {

/// Bins data of type `T` into `num_buckets` linearly spaced buckets
/// between a start and an end value.
///
/// The bucket width is computed once at construction as
/// `(end - start) / num_buckets`. Unlike the fixed-width strategy, the
/// computed index is clamped to `[0, num_buckets - 1]`: values below
/// `start` map to bucket `0`, values at or beyond `end` map to the last
/// bucket, so the index range is bounded and dense.
pub struct LinearBucketizer<T: BucketArith> {
    start: T,
    num_buckets: usize,
    bucket_width: T,
}

impl<T: BucketArith> LinearBucketizer<T> {
    /// The start of the covered range.
    pub closed spec fn start_spec(&self) -> T {
        self.start
    }

    /// The number of buckets, fixed for the instance's lifetime.
    pub closed spec fn num_buckets_spec(&self) -> usize {
        self.num_buckets
    }

    /// The derived bucket width, computed once at construction.
    pub closed spec fn bucket_width_spec(&self) -> T {
        self.bucket_width
    }

    /// The index assigned to `value`: the raw fixed-width index relative
    /// to `start`, clamped to `[0, num_buckets - 1]`.
    pub open spec fn index_of(&self, value: T) -> usize {
        if value.lt_spec(self.start_spec()) {
            0usize
        } else {
            let raw = value.sub_spec(self.start_spec()).div_spec(
                self.bucket_width_spec(),
            ).index_spec();
            if raw < self.num_buckets_spec() {
                raw
            } else {
                (self.num_buckets_spec() - 1) as usize
            }
        }
    }

    /// Creates a new `LinearBucketizer` covering `[start, end)` with
    /// `num_buckets` equally spaced buckets; the bucket count is supplied
    /// as an element value and converted to an integer count.
    pub fn new(start: T, end: T, num_buckets: T) -> (r: Self)
        requires
            end.sub_ok(start),
            end.sub_spec(start).div_ok(num_buckets),
        ensures
            r.start_spec() == start,
            r.bucket_width_spec() == end.sub_spec(start).div_spec(num_buckets),
            r.num_buckets_spec() == num_buckets.index_spec(),
    {
        let bucket_width = end.sub(&start).div(&num_buckets);
        let num_buckets = num_buckets.into_usize();

        LinearBucketizer { start, num_buckets, bucket_width }
    }
}

impl<T: BucketArith> BucketizeSingle<T> for LinearBucketizer<T> {
    open spec fn bucketize_req(&self, value: T) -> bool {
        !value.lt_spec(self.start_spec()) ==> {
            &&& value.sub_ok(self.start_spec())
            &&& value.sub_spec(self.start_spec()).div_ok(self.bucket_width_spec())
            &&& self.num_buckets_spec() >= 1
        }
    }

    open spec fn bucketize_post(&self, value: T, index: usize) -> bool {
        index == self.index_of(value)
    }

    /// Bucketizes a single value, clamping the computed index to the
    /// declared bucket range.
    fn bucketize(&self, item: &T) -> (index: usize) {
        if item.lt(&self.start) {
            0
        } else {
            let bucket_index: usize = item.sub(&self.start).div(&self.bucket_width).into_usize();
            if bucket_index < self.num_buckets {
                bucket_index
            } else {
                self.num_buckets - 1
            }
        }
    }
}

impl<T: BucketArith> Bucketize<T> for LinearBucketizer<T> {
}

/// Low clamp: any value below `start` is assigned bucket `0`.
pub proof fn lemma_linear_clamp_low<T: BucketArith>(b: LinearBucketizer<T>, value: T)
    requires
        value.lt_spec(b.start_spec()),
    ensures
        b.bucketize_req(value),
        b.bucketize_post(value, 0),
{
}

/// High clamp: any value at or beyond `end` is assigned the last bucket,
/// `num_buckets - 1`, for an instance built over `[start, end)` with a
/// positive derived bucket width.
pub proof fn lemma_linear_clamp_high(
    b: LinearBucketizer<i64>,
    end: i64,
    num_buckets: i64,
    value: i64,
)
    requires
        1 <= num_buckets <= usize::MAX,
        b.start_spec() < end,
        end - b.start_spec() <= i64::MAX,
        b.num_buckets_spec() == num_buckets as usize,
        b.bucket_width_spec() == end.sub_spec(b.start_spec()).div_spec(num_buckets),
        b.bucket_width_spec() >= 1,
        end <= value,
        value - b.start_spec() <= i64::MAX,
        value - b.start_spec() <= usize::MAX,
    ensures
        b.bucketize_req(value),
        b.bucketize_post(value, (num_buckets - 1) as usize),
{
    let start = b.start_spec();
    let nb = num_buckets as int;
    let span = end - start;
    let w = b.bucket_width_spec() as int;
    let d = value - start;
    assert(w == span / nb);
    vstd::arithmetic::div_mod::lemma_fundamental_div_mod(span, nb);
    vstd::arithmetic::div_mod::lemma_remainder_upper(span, nb);
    assert(nb * w <= span);
    assert(usize::MAX >= d >= span >= nb * w);
    vstd::arithmetic::div_mod::lemma_div_is_ordered(nb * w, d, w);
    vstd::arithmetic::div_mod::lemma_div_multiples_vanish(nb, w);
    assert((nb * w) / w == nb);
    assert(d / w >= nb);
    vstd::arithmetic::div_mod::lemma_div_nonincreasing(d, w);
    assert(d / w <= d <= usize::MAX);
    let raw = value.sub_spec(start).div_spec(b.bucket_width_spec());
    assert(raw == d / w);
    assert(raw.index_spec() == d / w);
    assert(!(raw.index_spec() < b.num_buckets_spec()));
}

/// Same value, same instance, same index: the linear strategy is
/// deterministic.
pub proof fn lemma_linear_deterministic<T: BucketArith>(
    b: LinearBucketizer<T>,
    value: T,
    i1: usize,
    i2: usize,
)
    requires
        b.bucketize_post(value, i1),
        b.bucketize_post(value, i2),
    ensures
        i1 == i2,
{
}

} // verus!
