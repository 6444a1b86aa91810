//! Element capabilities shared by the bucketing strategies.
//!
//! A strategy is generic over its element type. Rather than relying on
//! operator traits whose behaviour the verifier cannot see, each element
//! type implements a small set of named operations — compare, subtract,
//! divide — together with spec-level definitions of what each operation
//! returns and when it may be called.

use vstd::prelude::*;
use crate::into_usize::IntoUsize;

verus! {

/// An ordered, copyable element type.
///
/// `lt` is the strict order that the quantile and range strategies scan
/// with; `lt_spec` is its spec-level meaning.
pub trait BucketOrd: Sized + Copy {
    /// Whether `self` is strictly below `other`.
    spec fn lt_spec(self, other: Self) -> bool;

    /// Compares two elements; returns `true` when `self` is strictly below
    /// `other`.
    fn lt(&self, other: &Self) -> (r: bool)
        ensures
            r == self.lt_spec(*other),
    ;
}

/// An element type with the arithmetic the fixed-width and linear
/// strategies need: subtraction, division, and index conversion.
///
/// `sub_ok` and `div_ok` say when the operation is defined (no overflow,
/// no zero divisor); outside them the operation would not return normally,
/// so callers must stay inside them.
pub trait BucketArith: BucketOrd + IntoUsize {
    /// Whether `self - other` is representable.
    spec fn sub_ok(self, other: Self) -> bool;

    /// The value of `self - other`.
    spec fn sub_spec(self, other: Self) -> Self;

    /// Whether `self / other` is defined and representable.
    spec fn div_ok(self, other: Self) -> bool;

    /// The value of `self / other`, truncated toward zero.
    spec fn div_spec(self, other: Self) -> Self;

    /// Subtracts `other` from `self`.
    fn sub(&self, other: &Self) -> (r: Self)
        requires
            self.sub_ok(*other),
        ensures
            r == self.sub_spec(*other),
    ;

    /// Divides `self` by `other`, truncating toward zero.
    fn div(&self, other: &Self) -> (r: Self)
        requires
            self.div_ok(*other),
        ensures
            r == self.div_spec(*other),
    ;
}

impl BucketOrd for i8 {
    open spec fn lt_spec(self, other: Self) -> bool {
        self < other
    }

    fn lt(&self, other: &Self) -> (r: bool) {
        *self < *other
    }
}

impl BucketOrd for i16 {
    open spec fn lt_spec(self, other: Self) -> bool {
        self < other
    }

    fn lt(&self, other: &Self) -> (r: bool) {
        *self < *other
    }
}

impl BucketOrd for i32 {
    open spec fn lt_spec(self, other: Self) -> bool {
        self < other
    }

    fn lt(&self, other: &Self) -> (r: bool) {
        *self < *other
    }
}

impl BucketOrd for i64 {
    open spec fn lt_spec(self, other: Self) -> bool {
        self < other
    }

    fn lt(&self, other: &Self) -> (r: bool) {
        *self < *other
    }
}

impl BucketOrd for i128 {
    open spec fn lt_spec(self, other: Self) -> bool {
        self < other
    }

    fn lt(&self, other: &Self) -> (r: bool) {
        *self < *other
    }
}

impl BucketOrd for u8 {
    open spec fn lt_spec(self, other: Self) -> bool {
        self < other
    }

    fn lt(&self, other: &Self) -> (r: bool) {
        *self < *other
    }
}

impl BucketOrd for u16 {
    open spec fn lt_spec(self, other: Self) -> bool {
        self < other
    }

    fn lt(&self, other: &Self) -> (r: bool) {
        *self < *other
    }
}

impl BucketOrd for u32 {
    open spec fn lt_spec(self, other: Self) -> bool {
        self < other
    }

    fn lt(&self, other: &Self) -> (r: bool) {
        *self < *other
    }
}

impl BucketOrd for u64 {
    open spec fn lt_spec(self, other: Self) -> bool {
        self < other
    }

    fn lt(&self, other: &Self) -> (r: bool) {
        *self < *other
    }
}

impl BucketOrd for u128 {
    open spec fn lt_spec(self, other: Self) -> bool {
        self < other
    }

    fn lt(&self, other: &Self) -> (r: bool) {
        *self < *other
    }
}

impl BucketArith for i8 {
    open spec fn sub_ok(self, other: Self) -> bool {
        i8::MIN <= self - other <= i8::MAX
    }

    open spec fn sub_spec(self, other: Self) -> Self {
        (self - other) as i8
    }

    open spec fn div_ok(self, other: Self) -> bool {
        other != 0 && !(self == i8::MIN && other == -1)
    }

    open spec fn div_spec(self, other: Self) -> Self {
        if self >= 0 {
            (self / other) as i8
        } else {
            (-((-self) / (other as int))) as i8
        }
    }

    fn sub(&self, other: &Self) -> (r: Self) {
        *self - *other
    }

    fn div(&self, other: &Self) -> (r: Self) {
        *self / *other
    }
}

impl BucketArith for i16 {
    open spec fn sub_ok(self, other: Self) -> bool {
        i16::MIN <= self - other <= i16::MAX
    }

    open spec fn sub_spec(self, other: Self) -> Self {
        (self - other) as i16
    }

    open spec fn div_ok(self, other: Self) -> bool {
        other != 0 && !(self == i16::MIN && other == -1)
    }

    open spec fn div_spec(self, other: Self) -> Self {
        if self >= 0 {
            (self / other) as i16
        } else {
            (-((-self) / (other as int))) as i16
        }
    }

    fn sub(&self, other: &Self) -> (r: Self) {
        *self - *other
    }

    fn div(&self, other: &Self) -> (r: Self) {
        *self / *other
    }
}

impl BucketArith for i32 {
    open spec fn sub_ok(self, other: Self) -> bool {
        i32::MIN <= self - other <= i32::MAX
    }

    open spec fn sub_spec(self, other: Self) -> Self {
        (self - other) as i32
    }

    open spec fn div_ok(self, other: Self) -> bool {
        other != 0 && !(self == i32::MIN && other == -1)
    }

    open spec fn div_spec(self, other: Self) -> Self {
        if self >= 0 {
            (self / other) as i32
        } else {
            (-((-self) / (other as int))) as i32
        }
    }

    fn sub(&self, other: &Self) -> (r: Self) {
        *self - *other
    }

    fn div(&self, other: &Self) -> (r: Self) {
        *self / *other
    }
}

impl BucketArith for i64 {
    open spec fn sub_ok(self, other: Self) -> bool {
        i64::MIN <= self - other <= i64::MAX
    }

    open spec fn sub_spec(self, other: Self) -> Self {
        (self - other) as i64
    }

    open spec fn div_ok(self, other: Self) -> bool {
        other != 0 && !(self == i64::MIN && other == -1)
    }

    open spec fn div_spec(self, other: Self) -> Self {
        if self >= 0 {
            (self / other) as i64
        } else {
            (-((-self) / (other as int))) as i64
        }
    }

    fn sub(&self, other: &Self) -> (r: Self) {
        *self - *other
    }

    fn div(&self, other: &Self) -> (r: Self) {
        *self / *other
    }
}

impl BucketArith for i128 {
    open spec fn sub_ok(self, other: Self) -> bool {
        i128::MIN <= self - other <= i128::MAX
    }

    open spec fn sub_spec(self, other: Self) -> Self {
        (self - other) as i128
    }

    open spec fn div_ok(self, other: Self) -> bool {
        other != 0 && !(self == i128::MIN && other == -1)
    }

    open spec fn div_spec(self, other: Self) -> Self {
        if self >= 0 {
            (self / other) as i128
        } else {
            (-((-self) / (other as int))) as i128
        }
    }

    fn sub(&self, other: &Self) -> (r: Self) {
        *self - *other
    }

    fn div(&self, other: &Self) -> (r: Self) {
        *self / *other
    }
}

impl BucketArith for u8 {
    open spec fn sub_ok(self, other: Self) -> bool {
        other <= self
    }

    open spec fn sub_spec(self, other: Self) -> Self {
        (self - other) as u8
    }

    open spec fn div_ok(self, other: Self) -> bool {
        other != 0
    }

    open spec fn div_spec(self, other: Self) -> Self {
        self / other
    }

    fn sub(&self, other: &Self) -> (r: Self) {
        *self - *other
    }

    fn div(&self, other: &Self) -> (r: Self) {
        *self / *other
    }
}

impl BucketArith for u16 {
    open spec fn sub_ok(self, other: Self) -> bool {
        other <= self
    }

    open spec fn sub_spec(self, other: Self) -> Self {
        (self - other) as u16
    }

    open spec fn div_ok(self, other: Self) -> bool {
        other != 0
    }

    open spec fn div_spec(self, other: Self) -> Self {
        self / other
    }

    fn sub(&self, other: &Self) -> (r: Self) {
        *self - *other
    }

    fn div(&self, other: &Self) -> (r: Self) {
        *self / *other
    }
}

impl BucketArith for u32 {
    open spec fn sub_ok(self, other: Self) -> bool {
        other <= self
    }

    open spec fn sub_spec(self, other: Self) -> Self {
        (self - other) as u32
    }

    open spec fn div_ok(self, other: Self) -> bool {
        other != 0
    }

    open spec fn div_spec(self, other: Self) -> Self {
        self / other
    }

    fn sub(&self, other: &Self) -> (r: Self) {
        *self - *other
    }

    fn div(&self, other: &Self) -> (r: Self) {
        *self / *other
    }
}

impl BucketArith for u64 {
    open spec fn sub_ok(self, other: Self) -> bool {
        other <= self
    }

    open spec fn sub_spec(self, other: Self) -> Self {
        (self - other) as u64
    }

    open spec fn div_ok(self, other: Self) -> bool {
        other != 0
    }

    open spec fn div_spec(self, other: Self) -> Self {
        self / other
    }

    fn sub(&self, other: &Self) -> (r: Self) {
        *self - *other
    }

    fn div(&self, other: &Self) -> (r: Self) {
        *self / *other
    }
}

impl BucketArith for u128 {
    open spec fn sub_ok(self, other: Self) -> bool {
        other <= self
    }

    open spec fn sub_spec(self, other: Self) -> Self {
        (self - other) as u128
    }

    open spec fn div_ok(self, other: Self) -> bool {
        other != 0
    }

    open spec fn div_spec(self, other: Self) -> Self {
        self / other
    }

    fn sub(&self, other: &Self) -> (r: Self) {
        *self - *other
    }

    fn div(&self, other: &Self) -> (r: Self) {
        *self / *other
    }
}

} // verus!
