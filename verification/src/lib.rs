//! Assigns each value of an ordered, copyable scalar sequence to a discrete
//! bucket index, according to a pluggable bucketing strategy.
//!
//! The capability contract lives in [`bucketize`]: one value in, one bucket
//! index out, plus sequence bucketization built on top of it. The concrete
//! strategies — fixed-width, linear, quantile, range, custom — live under
//! [`bucketizers`], the lazy sequence adapter in [`into_buckets`], and the
//! element capabilities they are generic over in [`element`] and
//! [`into_usize`].

pub mod bucketize;
pub mod bucketizers;
pub mod element;
pub mod into_buckets;
pub mod into_usize;
