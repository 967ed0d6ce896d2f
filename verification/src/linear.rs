//! Straight segments between two points.
use vstd::prelude::*;
use crate::curve::Curve;
use crate::scalar::CurveScalar;
use crate::vector::Vector3;

verus! {

/// The straight segment from `start` to `end`.
#[derive(Clone, Copy, Debug, PartialEq)]
pub struct LinearCurve<N: CurveScalar> {
    pub start: Vector3<N>,
    pub end: Vector3<N>,
}

impl<N: CurveScalar> LinearCurve<N> {
    /// The position at `t`: `start * (1 - t) + end * t`.
    pub open spec fn point_spec(&self, t: N) -> Vector3<N> {
        self.start.scale_spec(N::one_spec().minus_spec(t)).plus_spec(self.end.scale_spec(t))
    }
}

impl<N: CurveScalar> Curve<N> for LinearCurve<N> {
    /// A segment needs two ends that differ.
    open spec fn valid_spec(&self) -> bool {
        !self.start.equal_spec(self.end)
    }

    /// A segment can be evaluated at every parameter.
    open spec fn defined_at(&self, t: N) -> bool {
        true
    }

    /// A segment has one position at each parameter.
    open spec fn has_point(&self, t: N, p: Vector3<N>) -> bool {
        p == self.point_spec(t)
    }

    fn get_point_mut(&self, t: N, v: &mut Vector3<N>)
        ensures
            *final(v) == self.start.scale_spec(N::one_spec().minus_spec(t)).plus_spec(
                self.end.scale_spec(t),
            ),
    {
        *v = self.start.scale(N::one().minus(t)).plus(&self.end.scale(t));
    }

    fn valid(&self) -> (b: bool)
        ensures
            b == !self.start.equal_spec(self.end),
    {
        !self.start.equal(&self.end)
    }
}

} // verus!
