//! The two-level bucketization capability contract.
//!
//! [`BucketizeSingle`] is the minimal capability: one value in, one bucket
//! index out. [`Bucketize`] builds sequence bucketization on top of it as a
//! default behaviour, so every strategy gets it for free.

use vstd::prelude::*;
use crate::element::BucketOrd;

verus! {

/// The single-value bucketization capability.
///
/// Each implementing strategy fixes what its `bucketize` promises through
/// two spec functions: `bucketize_req` says on which inputs the strategy may
/// be asked at all (everything else would hit undefined arithmetic), and
/// `bucketize_post` relates an input to the index returned for it.
pub trait BucketizeSingle<T: BucketOrd>: Sized {
    /// The inputs this strategy instance accepts.
    spec fn bucketize_req(&self, value: T) -> bool;

    /// Relates an accepted input to the bucket index returned for it.
    spec fn bucketize_post(&self, value: T, index: usize) -> bool;

    /// Returns the bucket index of a single value.
    fn bucketize(&self, item: &T) -> (index: usize)
        requires
            self.bucketize_req(*item),
        ensures
            self.bucketize_post(*item, index),
    ;
}

/// The sequence bucketization capability, built atop [`BucketizeSingle`].
///
/// The default behaviour maps single-value bucketization over the input in
/// order: the output has the same length as the input, and element `i` of
/// the output is a bucket index for element `i` of the input. An override
/// may replace the default only if it preserves exactly this contract.
pub trait Bucketize<T: BucketOrd>: BucketizeSingle<T> {
    /// Returns the bucket index of each element of `items`, in order.
    fn bucketize_iter(&self, items: &Vec<T>) -> (out: Vec<usize>)
        requires
            forall|i: int| 0 <= i < items@.len() ==> self.bucketize_req(#[trigger] items@[i]),
        ensures
            out@.len() == items@.len(),
            forall|i: int|
                0 <= i < items@.len() ==> self.bucketize_post(items@[i], #[trigger] out@[i]),
    {
        let mut out: Vec<usize> = Vec::new();
        let mut pos: usize = 0;
        while pos < items.len()
            invariant
                pos <= items@.len(),
                out@.len() == pos,
                forall|i: int| 0 <= i < items@.len() ==> self.bucketize_req(#[trigger] items@[i]),
                forall|i: int|
                    0 <= i < pos ==> self.bucketize_post(items@[i], #[trigger] out@[i]),
            decreases items@.len() - pos,
        {
            let index: usize = self.bucketize(&items[pos]);
            out.push(index);
            pos = pos + 1;
        }
        out
    }
}

} // verus!
