//! Numeric index conversion: turning a strategy-internal numeric quantity
//! into a bucket index.
//!
//! Bucket arithmetic is done in the element's own numeric representation,
//! but bucket indices are plain non-negative integers, so every element type
//! carries a truncating conversion to `usize`.

use vstd::prelude::*;

verus! {

/// Truncating conversion from an element type to a bucket index.
///
/// The conversion is total: it never fails, and out-of-range inputs
/// (negative values, values above `usize::MAX`) truncate exactly as the
/// corresponding `as usize` cast does.
pub trait IntoUsize: Sized {
    /// The index that [`Self::into_usize`] returns, as a spec-level value.
    spec fn index_spec(&self) -> usize;

    /// Converts this value into a bucket index, truncating.
    fn into_usize(&self) -> (r: usize)
        ensures
            r == self.index_spec(),
    ;
}

impl IntoUsize for i8 {
    open spec fn index_spec(&self) -> usize {
        *self as usize
    }

    fn into_usize(&self) -> (r: usize) {
        #[verifier::truncate] (*self as usize)
    }
}

impl IntoUsize for i16 {
    open spec fn index_spec(&self) -> usize {
        *self as usize
    }

    fn into_usize(&self) -> (r: usize) {
        #[verifier::truncate] (*self as usize)
    }
}

impl IntoUsize for i32 {
    open spec fn index_spec(&self) -> usize {
        *self as usize
    }

    fn into_usize(&self) -> (r: usize) {
        #[verifier::truncate] (*self as usize)
    }
}

impl IntoUsize for i64 {
    open spec fn index_spec(&self) -> usize {
        *self as usize
    }

    fn into_usize(&self) -> (r: usize) {
        #[verifier::truncate] (*self as usize)
    }
}

impl IntoUsize for i128 {
    open spec fn index_spec(&self) -> usize {
        *self as usize
    }

    fn into_usize(&self) -> (r: usize) {
        #[verifier::truncate] (*self as usize)
    }
}

impl IntoUsize for u8 {
    open spec fn index_spec(&self) -> usize {
        *self as usize
    }

    fn into_usize(&self) -> (r: usize) {
        #[verifier::truncate] (*self as usize)
    }
}

impl IntoUsize for u16 {
    open spec fn index_spec(&self) -> usize {
        *self as usize
    }

    fn into_usize(&self) -> (r: usize) {
        #[verifier::truncate] (*self as usize)
    }
}

impl IntoUsize for u32 {
    open spec fn index_spec(&self) -> usize {
        *self as usize
    }

    fn into_usize(&self) -> (r: usize) {
        #[verifier::truncate] (*self as usize)
    }
}

impl IntoUsize for u64 {
    open spec fn index_spec(&self) -> usize {
        *self as usize
    }

    fn into_usize(&self) -> (r: usize) {
        #[verifier::truncate] (*self as usize)
    }
}

impl IntoUsize for u128 {
    open spec fn index_spec(&self) -> usize {
        *self as usize
    }

    fn into_usize(&self) -> (r: usize) {
        #[verifier::truncate] (*self as usize)
    }
}

} // verus!
