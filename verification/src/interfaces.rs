//! The scalar interface of the engine: a copyable element type with an
//! additive zero, a multiplicative one, and negation.

use vstd::prelude::*;

verus! {

/// What the engine and the group formulas ask of a scalar: value copy, a
/// zero for buffer fill, a one, and negation. Negation is partial so that
/// fixed-width integers can refuse the one value whose negation overflows.
pub trait Numeric: Copy + Sized {
    /// The additive zero of the scalar.
    spec fn zero_spec() -> Self;

    /// The multiplicative one of the scalar.
    spec fn one_spec() -> Self;

    /// Whether `self` has a representable negation.
    spec fn negatable(self) -> bool;

    /// The negation of `self`, meaningful when `self.negatable()`.
    spec fn neg_spec(self) -> Self;

    fn zero() -> (r: Self)
        ensures
            r == Self::zero_spec(),
    ;

    fn one() -> (r: Self)
        ensures
            r == Self::one_spec(),
    ;

    fn neg(self) -> (r: Self)
        requires
            self.negatable(),
        ensures
            r == self.neg_spec(),
    ;
}

/// Scalars that can also be compared, as the axis-angle helpers around the
/// engine ask of their inputs.
pub trait NumericCompConvert: Numeric + PartialOrd {
}

impl Numeric for i64 {
    open spec fn zero_spec() -> i64 {
        0
    }

    open spec fn one_spec() -> i64 {
        1
    }

    open spec fn negatable(self) -> bool {
        self != i64::MIN
    }

    open spec fn neg_spec(self) -> i64 {
        (0 - self) as i64
    }

    fn zero() -> i64 {
        0
    }

    fn one() -> i64 {
        1
    }

    fn neg(self) -> i64 {
        -self
    }
}

impl NumericCompConvert for i64 {
}

impl Numeric for i32 {
    open spec fn zero_spec() -> i32 {
        0
    }

    open spec fn one_spec() -> i32 {
        1
    }

    open spec fn negatable(self) -> bool {
        self != i32::MIN
    }

    open spec fn neg_spec(self) -> i32 {
        (0 - self) as i32
    }

    fn zero() -> i32 {
        0
    }

    fn one() -> i32 {
        1
    }

    fn neg(self) -> i32 {
        -self
    }
}

impl NumericCompConvert for i32 {
}

} // verus!
