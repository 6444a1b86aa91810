//! The custom strategy: a caller-supplied bucketization function.

use core::marker::PhantomData;
use vstd::prelude::*;
use crate::bucketize::{Bucketize, BucketizeSingle};
use crate::element::BucketOrd;

verus! {

/// Lets the caller plug an ad hoc bucketization scheme into the same
/// capability contract — and therefore the same sequence and adapter
/// machinery — as the built-in strategies.
///
/// The strategy holds no state beyond the supplied function and delegates
/// to it directly: correctness of the binning is entirely the caller's
/// responsibility, and `bucketize` promises exactly that its result is one
/// the supplied function can return for the given value.
pub struct CustomBucketizer<T: BucketOrd, F: Fn(T) -> usize> {
    bucketizer: F,
    phantom: PhantomData<T>,
}

impl<T: BucketOrd, F: Fn(T) -> usize> CustomBucketizer<T, F> {
    /// The caller-supplied bucketization function.
    pub closed spec fn func_spec(&self) -> F {
        self.bucketizer
    }

    /// Creates a new custom bucketizer around the caller's bucketization
    /// function.
    pub fn new(func: F) -> (r: Self)
        ensures
            r.func_spec() == func,
    {
        CustomBucketizer { bucketizer: func, phantom: PhantomData }
    }
}

impl<T: BucketOrd, F: Fn(T) -> usize> BucketizeSingle<T> for CustomBucketizer<T, F> {
    open spec fn bucketize_req(&self, value: T) -> bool {
        call_requires(self.func_spec(), (value,))
    }

    open spec fn bucketize_post(&self, value: T, index: usize) -> bool {
        call_ensures(self.func_spec(), (value,), index)
    }

    /// Bucketizes a single value by direct delegation to the caller's
    /// function.
    fn bucketize(&self, item: &T) -> (index: usize) {
        (self.bucketizer)(*item)
    }
}

impl<T: BucketOrd, F: Fn(T) -> usize> Bucketize<T> for CustomBucketizer<T, F> {
}

} // verus!
