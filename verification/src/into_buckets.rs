//! The lazy bucketizing adapter: applies a strategy across an owned
//! sequence, one element per pull, without materializing intermediate
//! results.

use vstd::prelude::*;
use crate::bucketize::BucketizeSingle;
use crate::element::BucketOrd;

verus! {

/// A type to convert into when bucketizing.
///
/// Owns its source sequence and its strategy exclusively, and yields one
/// bucket index per [`Self::next`] call. The adapter is in one of two
/// states: active, while source elements remain, and exhausted, once the
/// end of the source has been reached. Once exhausted it stays exhausted —
/// every further pull yields nothing and leaves the adapter unchanged.
/// There is no buffering and no look-ahead: each pull reads exactly one
/// source element and bucketizes it.
pub struct IntoBuckets<T: BucketOrd, B: BucketizeSingle<T>> {
    inner: Vec<T>,
    bucketizer: B,
    pos: usize,
}

impl<T: BucketOrd, B: BucketizeSingle<T>> IntoBuckets<T, B> {
    /// The source sequence this adapter was built over.
    pub closed spec fn inner_spec(&self) -> Seq<T> {
        self.inner@
    }

    /// The wrapped strategy.
    pub closed spec fn bucketizer_spec(&self) -> B {
        self.bucketizer
    }

    /// How many source elements have been consumed so far.
    pub closed spec fn pos_spec(&self) -> int {
        self.pos as int
    }

    /// Whether the adapter has reached the end of its source.
    pub open spec fn exhausted(&self) -> bool {
        self.pos_spec() >= self.inner_spec().len()
    }

    /// Creates a new `IntoBuckets` adapter by taking ownership of the
    /// source sequence `inner` and applying the provided strategy
    /// `bucketizer` to each of its elements in turn.
    pub fn new(inner: Vec<T>, bucketizer: B) -> (r: Self)
        ensures
            r.inner_spec() == inner@,
            r.bucketizer_spec() == bucketizer,
            r.pos_spec() == 0,
    {
        IntoBuckets { inner, bucketizer, pos: 0 }
    }

    /// Returns the next bucketized value from the source sequence, or
    /// nothing once the source is exhausted.
    ///
    /// While active, each call consumes exactly one source element and
    /// yields a bucket index for it. Once the adapter is exhausted, every
    /// call returns `None` and changes nothing.
    pub fn next(&mut self) -> (r: Option<usize>)
        requires
            !old(self).exhausted() ==> old(self).bucketizer_spec().bucketize_req(
                old(self).inner_spec()[old(self).pos_spec()],
            ),
        ensures
            final(self).inner_spec() == old(self).inner_spec(),
            final(self).bucketizer_spec() == old(self).bucketizer_spec(),
            !old(self).exhausted() ==> {
                &&& final(self).pos_spec() == old(self).pos_spec() + 1
                &&& r is Some
                &&& old(self).bucketizer_spec().bucketize_post(
                    old(self).inner_spec()[old(self).pos_spec()],
                    r->0,
                )
            },
            old(self).exhausted() ==> {
                &&& r is None
                &&& final(self).pos_spec() == old(self).pos_spec()
            },
    {
        if self.pos < self.inner.len() {
            let value = self.inner[self.pos];
            let index: usize = self.bucketizer.bucketize(&value);
            self.pos = self.pos + 1;
            Some(index)
        } else {
            None
        }
    }
}

} // verus!
