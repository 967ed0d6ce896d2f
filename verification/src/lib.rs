//! Parametric curves in space: straight segments, cubic Bezier curves,
//! ellipse arcs and Catmull-Rom splines, each evaluated at a parameter in
//! `[0, 1]`, with tangents, sampled points and polyline lengths derived from
//! the evaluation.
use vstd::prelude::*;

pub mod bezier;
pub mod catmull_rom;
pub mod curve;
pub mod ellipse;
pub mod linear;
pub mod scalar;
pub mod vector;

pub use bezier::{
    cubic_bezier, cubic_bezier_p0, cubic_bezier_p1, cubic_bezier_p2, cubic_bezier_p3, BezierCurve,
};
pub use catmull_rom::{CatmullRomCurve, CatmullRomCurveType, CubicPoly, Segment, Window};
pub use curve::{get_points, Curve};
pub use ellipse::EllipseCurve;
pub use linear::LinearCurve;
pub use scalar::CurveScalar;
pub use vector::{Quaternion, Vector3};

verus! {

/// A growable sequence of control points.
pub trait PointContainer<N: CurveScalar>: std::ops::Index<usize, Output = Vector3<N>>
    + std::ops::IndexMut<usize, Output = Vector3<N>> {
    /// The points held, in order.
    spec fn points_spec(&self) -> Seq<Vector3<N>>;

    /// Puts `t` after the points held so far.
    fn add_point(&mut self, t: Vector3<N>)
        ensures
            final(self).points_spec() == old(self).points_spec().push(t),
    ;

    /// The number of points held.
    fn point_count(&self) -> (count: usize)
        ensures
            count == self.points_spec().len(),
    ;
}

impl<N: CurveScalar> PointContainer<N> for Vec<Vector3<N>> {
    open spec fn points_spec(&self) -> Seq<Vector3<N>> {
        self@
    }

    fn add_point(&mut self, t: Vector3<N>) {
        self.push(t);
    }

    fn point_count(&self) -> (count: usize) {
        self.len()
    }
}

} // verus!
