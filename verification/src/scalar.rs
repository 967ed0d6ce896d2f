//! The numbers that curves compute with.
//!
//! A curve is generic over its scalar. The scalar is meant to be a
//! floating-point type, so nothing here assumes the laws of real arithmetic:
//! each operation is known only as a function of its arguments, and the
//! curves' contracts are written over those functions. Two values that the
//! scalar does not tell apart by any of its operations count as one value.
//!
//! Sine, cosine and power are weaker still. Their precision may differ from
//! one platform to the next, so they are described by relations (`has_sin`,
//! `has_cos`, `has_pow`) that say which results an implementation may return,
//! not by functions.
use vstd::prelude::*;

verus! {

/// The arithmetic a curve needs from its number type.
///
/// Every method but `sin`, `cos` and `pow` must return exactly what the
/// matching `_spec` function gives, on every call. An implementation for a
/// floating-point type meets this with the IEEE operation of the same name.
///
/// Nothing in this crate implements the trait, so what is proved of the
/// curves holds for a scalar as far as its implementation keeps to these
/// contracts. To code that is not verified the `_spec` functions and the
/// three relations are required functions like the others, though nothing
/// ever calls them: there each is best given the body of the method it
/// describes.
pub trait CurveScalar: Copy + Sized {
    /// The additive identity.
    spec fn zero_spec() -> Self;

    /// The multiplicative identity.
    spec fn one_spec() -> Self;

    /// The gap between one and the next value above it.
    spec fn epsilon_spec() -> Self;

    /// The full turn, in radians.
    spec fn two_pi_spec() -> Self;

    /// The scalar nearest to the count `n`.
    spec fn from_usize_spec(n: usize) -> Self;

    /// The scalar nearest to the integer `n`.
    spec fn from_i32_spec(n: i32) -> Self;

    /// The integer a whole-valued scalar stands for, where an `i64` holds it.
    spec fn to_i64_spec(self) -> Option<i64>;

    /// The sum `self + rhs`.
    spec fn plus_spec(self, rhs: Self) -> Self;

    /// The difference `self - rhs`.
    spec fn minus_spec(self, rhs: Self) -> Self;

    /// The product `self * rhs`.
    spec fn times_spec(self, rhs: Self) -> Self;

    /// The quotient `self / rhs`.
    spec fn over_spec(self, rhs: Self) -> Self;

    /// The negation `-self`.
    spec fn negated_spec(self) -> Self;

    /// The largest whole value not above `self`.
    spec fn floor_spec(self) -> Self;

    /// The square root of `self`.
    spec fn sqrt_spec(self) -> Self;

    /// Whether `self` is strictly below `rhs`.
    spec fn less_spec(self, rhs: Self) -> bool;

    /// Whether `self` and `rhs` compare equal.
    spec fn equal_spec(self, rhs: Self) -> bool;

    /// Whether `r` is a result that `sin` may return for `self`.
    spec fn has_sin(self, r: Self) -> bool;

    /// Whether `r` is a result that `cos` may return for `self`.
    spec fn has_cos(self, r: Self) -> bool;

    /// Whether `r` is a result that `pow` may return for `self` raised to `exp`.
    spec fn has_pow(self, exp: Self, r: Self) -> bool;

    fn zero() -> (r: Self)
        ensures
            r == Self::zero_spec(),
    ;

    fn one() -> (r: Self)
        ensures
            r == Self::one_spec(),
    ;

    fn epsilon() -> (r: Self)
        ensures
            r == Self::epsilon_spec(),
    ;

    fn two_pi() -> (r: Self)
        ensures
            r == Self::two_pi_spec(),
    ;

    fn from_usize(n: usize) -> (r: Self)
        ensures
            r == Self::from_usize_spec(n),
    ;

    fn from_i32(n: i32) -> (r: Self)
        ensures
            r == Self::from_i32_spec(n),
    ;

    fn to_i64(self) -> (r: Option<i64>)
        ensures
            r == self.to_i64_spec(),
    ;

    fn plus(self, rhs: Self) -> (r: Self)
        ensures
            r == self.plus_spec(rhs),
    ;

    fn minus(self, rhs: Self) -> (r: Self)
        ensures
            r == self.minus_spec(rhs),
    ;

    fn times(self, rhs: Self) -> (r: Self)
        ensures
            r == self.times_spec(rhs),
    ;

    fn over(self, rhs: Self) -> (r: Self)
        ensures
            r == self.over_spec(rhs),
    ;

    fn negated(self) -> (r: Self)
        ensures
            r == self.negated_spec(),
    ;

    fn floor(self) -> (r: Self)
        ensures
            r == self.floor_spec(),
    ;

    fn sqrt(self) -> (r: Self)
        ensures
            r == self.sqrt_spec(),
    ;

    fn less(self, rhs: Self) -> (b: bool)
        ensures
            b == self.less_spec(rhs),
    ;

    fn equal(self, rhs: Self) -> (b: bool)
        ensures
            b == self.equal_spec(rhs),
    ;

    fn sin(self) -> (r: Self)
        ensures
            self.has_sin(r),
    ;

    fn cos(self) -> (r: Self)
        ensures
            self.has_cos(r),
    ;

    fn pow(self, exp: Self) -> (r: Self)
        ensures
            self.has_pow(exp, r),
    ;
}

} // verus!
