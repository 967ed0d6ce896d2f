//! Points and directions in space, and the orientation of a curve's plane.
//!
//! Each operation fixes the order in which the scalar's operations are
//! applied, since a floating-point scalar gives different results for
//! different orders.
use vstd::prelude::*;
use crate::scalar::CurveScalar;

verus! {

/// A point or a direction with three coordinates.
#[derive(Clone, Copy, Debug, PartialEq)]
pub struct Vector3<N: CurveScalar> {
    pub x: N,
    pub y: N,
    pub z: N,
}

impl<N: CurveScalar> Vector3<N> {
    /// The vector whose coordinates are all zero.
    pub open spec fn zeros_spec() -> Self {
        Vector3 { x: N::zero_spec(), y: N::zero_spec(), z: N::zero_spec() }
    }

    /// The sum, coordinate by coordinate.
    pub open spec fn plus_spec(self, rhs: Self) -> Self {
        Vector3 {
            x: self.x.plus_spec(rhs.x),
            y: self.y.plus_spec(rhs.y),
            z: self.z.plus_spec(rhs.z),
        }
    }

    /// The difference, coordinate by coordinate.
    pub open spec fn minus_spec(self, rhs: Self) -> Self {
        Vector3 {
            x: self.x.minus_spec(rhs.x),
            y: self.y.minus_spec(rhs.y),
            z: self.z.minus_spec(rhs.z),
        }
    }

    /// Every coordinate multiplied by `factor`.
    pub open spec fn scale_spec(self, factor: N) -> Self {
        Vector3 {
            x: self.x.times_spec(factor),
            y: self.y.times_spec(factor),
            z: self.z.times_spec(factor),
        }
    }

    /// Every coordinate divided by `divisor`.
    pub open spec fn unscale_spec(self, divisor: N) -> Self {
        Vector3 {
            x: self.x.over_spec(divisor),
            y: self.y.over_spec(divisor),
            z: self.z.over_spec(divisor),
        }
    }

    /// The cross product of `self` and `rhs`, in that order.
    pub open spec fn cross_spec(self, rhs: Self) -> Self {
        Vector3 {
            x: self.y.times_spec(rhs.z).minus_spec(self.z.times_spec(rhs.y)),
            y: self.z.times_spec(rhs.x).minus_spec(self.x.times_spec(rhs.z)),
            z: self.x.times_spec(rhs.y).minus_spec(self.y.times_spec(rhs.x)),
        }
    }

    /// The squared length: `(x x + y y) + z z`.
    pub open spec fn norm_squared_spec(self) -> N {
        self.x.times_spec(self.x).plus_spec(self.y.times_spec(self.y)).plus_spec(
            self.z.times_spec(self.z),
        )
    }

    /// The length: the square root of the squared length.
    pub open spec fn norm_spec(self) -> N {
        self.norm_squared_spec().sqrt_spec()
    }

    /// The vector divided by its own length.
    pub open spec fn normalize_spec(self) -> Self {
        self.unscale_spec(self.norm_spec())
    }

    /// The length of `self - other`.
    pub open spec fn distance_spec(self, other: Self) -> N {
        self.minus_spec(other).norm_spec()
    }

    /// The squared length of `self - other`.
    pub open spec fn distance_squared_spec(self, other: Self) -> N {
        self.minus_spec(other).norm_squared_spec()
    }

    /// Whether all three coordinates compare equal.
    pub open spec fn equal_spec(self, other: Self) -> bool {
        self.x.equal_spec(other.x) && self.y.equal_spec(other.y) && self.z.equal_spec(other.z)
    }

    /// The vector with the coordinates `x`, `y` and `z`.
    pub fn new(x: N, y: N, z: N) -> (r: Self)
        ensures
            r == (Vector3 { x, y, z }),
    {
        Vector3 { x, y, z }
    }

    /// The vector whose coordinates are all zero.
    pub fn zeros() -> (r: Self)
        ensures
            r == Self::zeros_spec(),
    {
        Vector3 { x: N::zero(), y: N::zero(), z: N::zero() }
    }

    /// Adds `rhs`, coordinate by coordinate.
    pub fn plus(&self, rhs: &Self) -> (r: Self)
        ensures
            r == self.plus_spec(*rhs),
    {
        Vector3 { x: self.x.plus(rhs.x), y: self.y.plus(rhs.y), z: self.z.plus(rhs.z) }
    }

    /// Takes `rhs` off, coordinate by coordinate.
    pub fn minus(&self, rhs: &Self) -> (r: Self)
        ensures
            r == self.minus_spec(*rhs),
    {
        Vector3 { x: self.x.minus(rhs.x), y: self.y.minus(rhs.y), z: self.z.minus(rhs.z) }
    }

    /// Multiplies every coordinate by `factor`.
    pub fn scale(&self, factor: N) -> (r: Self)
        ensures
            r == self.scale_spec(factor),
    {
        Vector3 { x: self.x.times(factor), y: self.y.times(factor), z: self.z.times(factor) }
    }

    /// Divides every coordinate by `divisor`.
    pub fn unscale(&self, divisor: N) -> (r: Self)
        ensures
            r == self.unscale_spec(divisor),
    {
        Vector3 { x: self.x.over(divisor), y: self.y.over(divisor), z: self.z.over(divisor) }
    }

    /// The cross product of `self` and `rhs`, in that order.
    pub fn cross(&self, rhs: &Self) -> (r: Self)
        ensures
            r == self.cross_spec(*rhs),
    {
        Vector3 {
            x: self.y.times(rhs.z).minus(self.z.times(rhs.y)),
            y: self.z.times(rhs.x).minus(self.x.times(rhs.z)),
            z: self.x.times(rhs.y).minus(self.y.times(rhs.x)),
        }
    }

    /// The squared length.
    pub fn norm_squared(&self) -> (r: N)
        ensures
            r == self.norm_squared_spec(),
    {
        self.x.times(self.x).plus(self.y.times(self.y)).plus(self.z.times(self.z))
    }

    /// The length.
    pub fn norm(&self) -> (r: N)
        ensures
            r == self.norm_spec(),
    {
        self.norm_squared().sqrt()
    }

    /// The vector scaled to length one. Where the length is zero the
    /// coordinates are whatever the scalar gives for a division by zero.
    pub fn normalize(&self) -> (r: Self)
        ensures
            r == self.normalize_spec(),
    {
        self.unscale(self.norm())
    }

    /// The distance to `other`.
    pub fn distance(&self, other: &Self) -> (r: N)
        ensures
            r == self.distance_spec(*other),
    {
        self.minus(other).norm()
    }

    /// The squared distance to `other`.
    pub fn distance_squared(&self, other: &Self) -> (r: N)
        ensures
            r == self.distance_squared_spec(*other),
    {
        self.minus(other).norm_squared()
    }

    /// Whether all three coordinates compare equal to those of `other`.
    pub fn equal(&self, other: &Self) -> (b: bool)
        ensures
            b == self.equal_spec(*other),
    {
        self.x.equal(other.x) && self.y.equal(other.y) && self.z.equal(other.z)
    }
}

/// An orientation in space, held as a quaternion with the imaginary parts
/// `i`, `j`, `k` and the real part `w`, and meant to have length one.
#[derive(Clone, Copy, Debug, PartialEq)]
pub struct Quaternion<N: CurveScalar> {
    pub i: N,
    pub j: N,
    pub k: N,
    pub w: N,
}

impl<N: CurveScalar> Quaternion<N> {
    /// The orientation that turns nothing.
    pub open spec fn identity_spec() -> Self {
        Quaternion { i: N::zero_spec(), j: N::zero_spec(), k: N::zero_spec(), w: N::one_spec() }
    }

    /// The imaginary part, as a vector.
    pub open spec fn axis_spec(self) -> Vector3<N> {
        Vector3 { x: self.i, y: self.j, z: self.k }
    }

    /// The vector `v` turned by this orientation: with `q` the imaginary part
    /// and `t` the cross product of `q` and `v`, doubled, the result is
    /// `(t w + q x t) + v`, where `q x t` is the cross product of `q` and `t`.
    pub open spec fn transform_vector_spec(self, v: Vector3<N>) -> Vector3<N> {
        let t = self.axis_spec().cross_spec(v).scale_spec(N::from_i32_spec(2));
        t.scale_spec(self.w).plus_spec(self.axis_spec().cross_spec(t)).plus_spec(v)
    }

    /// The quaternion with the imaginary parts `i`, `j`, `k` and the real
    /// part `w`.
    pub fn new(i: N, j: N, k: N, w: N) -> (r: Self)
        ensures
            r == (Quaternion { i, j, k, w }),
    {
        Quaternion { i, j, k, w }
    }

    /// The orientation that turns nothing.
    pub fn identity() -> (r: Self)
        ensures
            r == Self::identity_spec(),
    {
        Quaternion { i: N::zero(), j: N::zero(), k: N::zero(), w: N::one() }
    }

    /// Turns `v` by this orientation.
    pub fn transform_vector(&self, v: &Vector3<N>) -> (r: Vector3<N>)
        ensures
            r == self.transform_vector_spec(*v),
    {
        let axis = Vector3 { x: self.i, y: self.j, z: self.k };
        let t = axis.cross(v).scale(N::from_i32(2));
        let turned = axis.cross(&t);
        t.scale(self.w).plus(&turned).plus(v)
    }
}

} // verus!
