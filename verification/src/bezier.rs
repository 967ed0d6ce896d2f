//! Cubic Bezier curves: four control points blended by the Bernstein
//! polynomials of degree three.
use vstd::prelude::*;
use crate::curve::Curve;
use crate::scalar::CurveScalar;
use crate::vector::Vector3;

verus! {

/// The first Bernstein term: `(1 - t)^3 p`, multiplied from the left.
pub open spec fn cubic_bezier_p0_spec<N: CurveScalar>(t: N, p: N) -> N {
    let k = N::one_spec().minus_spec(t);
    k.times_spec(k).times_spec(k).times_spec(p)
}

/// The second Bernstein term: `3 (1 - t)^2 t p`, multiplied from the left.
pub open spec fn cubic_bezier_p1_spec<N: CurveScalar>(t: N, p: N) -> N {
    let k = N::one_spec().minus_spec(t);
    N::from_usize_spec(3).times_spec(k).times_spec(k).times_spec(t).times_spec(p)
}

/// The third Bernstein term: `3 (1 - t) t^2 p`, multiplied from the left.
pub open spec fn cubic_bezier_p2_spec<N: CurveScalar>(t: N, p: N) -> N {
    N::from_usize_spec(3).times_spec(N::one_spec().minus_spec(t)).times_spec(t).times_spec(
        t,
    ).times_spec(p)
}

/// The fourth Bernstein term: `t^3 p`, multiplied from the left.
pub open spec fn cubic_bezier_p3_spec<N: CurveScalar>(t: N, p: N) -> N {
    t.times_spec(t).times_spec(t).times_spec(p)
}

/// One coordinate of a cubic Bezier curve at `t`: the four Bernstein terms of
/// the control values `p0` to `p3`, summed from the first on.
pub open spec fn cubic_bezier_spec<N: CurveScalar>(t: N, p0: N, p1: N, p2: N, p3: N) -> N {
    cubic_bezier_p0_spec(t, p0).plus_spec(cubic_bezier_p1_spec(t, p1)).plus_spec(
        cubic_bezier_p2_spec(t, p2),
    ).plus_spec(cubic_bezier_p3_spec(t, p3))
}

/// One coordinate of a cubic Bezier curve at `t`, from the control values
/// `p0` to `p3`.
pub fn cubic_bezier<N: CurveScalar>(t: N, p0: N, p1: N, p2: N, p3: N) -> (r: N)
    ensures
        r == cubic_bezier_spec(t, p0, p1, p2, p3),
{
    cubic_bezier_p0(t, p0).plus(cubic_bezier_p1(t, p1)).plus(cubic_bezier_p2(t, p2)).plus(
        cubic_bezier_p3(t, p3),
    )
}

/// The share of the first control value `p` at `t`.
pub fn cubic_bezier_p0<N: CurveScalar>(t: N, p: N) -> (r: N)
    ensures
        r == cubic_bezier_p0_spec(t, p),
{
    let k = N::one().minus(t);
    k.times(k).times(k).times(p)
}

/// The share of the second control value `p` at `t`.
pub fn cubic_bezier_p1<N: CurveScalar>(t: N, p: N) -> (r: N)
    ensures
        r == cubic_bezier_p1_spec(t, p),
{
    let k = N::one().minus(t);
    N::from_usize(3).times(k).times(k).times(t).times(p)
}

/// The share of the third control value `p` at `t`.
pub fn cubic_bezier_p2<N: CurveScalar>(t: N, p: N) -> (r: N)
    ensures
        r == cubic_bezier_p2_spec(t, p),
{
    N::from_usize(3).times(N::one().minus(t)).times(t).times(t).times(p)
}

/// The share of the fourth control value `p` at `t`.
pub fn cubic_bezier_p3<N: CurveScalar>(t: N, p: N) -> (r: N)
    ensures
        r == cubic_bezier_p3_spec(t, p),
{
    t.times(t).times(t).times(p)
}

/// Whether some point of `points` compares equal to a point before it.
pub open spec fn has_repeat<N: CurveScalar>(points: Seq<Vector3<N>>) -> bool {
    exists|earlier: int, later: int|
        0 <= earlier < later < points.len() && (#[trigger] points[later]).equal_spec(
            #[trigger] points[earlier],
        )
}

/// The cubic Bezier curve with the control points `p0` to `p3`. It starts at
/// `p0` and ends at `p3`; `p1` and `p2` pull it their way.
#[derive(Clone, Copy, Debug, PartialEq)]
pub struct BezierCurve<N: CurveScalar> {
    pub p0: Vector3<N>,
    pub p1: Vector3<N>,
    pub p2: Vector3<N>,
    pub p3: Vector3<N>,
}

impl<N: CurveScalar> BezierCurve<N> {
    /// The four control points in order.
    pub open spec fn control_points(&self) -> Seq<Vector3<N>> {
        seq![self.p0, self.p1, self.p2, self.p3]
    }

    /// The position at `t`: each coordinate blended from the control points'
    /// coordinates.
    pub open spec fn point_spec(&self, t: N) -> Vector3<N> {
        Vector3 {
            x: cubic_bezier_spec(t, self.p0.x, self.p1.x, self.p2.x, self.p3.x),
            y: cubic_bezier_spec(t, self.p0.y, self.p1.y, self.p2.y, self.p3.y),
            z: cubic_bezier_spec(t, self.p0.z, self.p1.z, self.p2.z, self.p3.z),
        }
    }
}

impl<N: CurveScalar> Curve<N> for BezierCurve<N> {
    /// A Bezier curve needs control points of which none repeats an earlier
    /// one.
    open spec fn valid_spec(&self) -> bool {
        !has_repeat(self.control_points())
    }

    /// A Bezier curve can be evaluated at every parameter.
    open spec fn defined_at(&self, t: N) -> bool {
        true
    }

    /// A Bezier curve has one position at each parameter.
    open spec fn has_point(&self, t: N, p: Vector3<N>) -> bool {
        p == self.point_spec(t)
    }

    fn get_point_mut(&self, t: N, v: &mut Vector3<N>)
        ensures
            *final(v) == self.point_spec(t),
    {
        *v = Vector3::new(
            cubic_bezier(t, self.p0.x, self.p1.x, self.p2.x, self.p3.x),
            cubic_bezier(t, self.p0.y, self.p1.y, self.p2.y, self.p3.y),
            cubic_bezier(t, self.p0.z, self.p1.z, self.p2.z, self.p3.z),
        );
    }

    /// Scans the control points: for each point but the last, whether it or
    /// a point after it compares equal to the point just before.
    fn valid(&self) -> (b: bool)
        ensures
            b == !has_repeat(self.control_points()),
    {
        let points = [self.p0, self.p1, self.p2, self.p3];
        let mut first: usize = 1;
        while first < 4
            invariant
                1 <= first <= 4,
                points@ == self.control_points(),
                forall|earlier: int, later: int|
                    0 <= earlier < later < 4 && earlier < first - 1 ==> !(#[trigger] points@[later]).equal_spec(
                        #[trigger] points@[earlier],
                    ),
            decreases 4 - first,
        {
            let mut at: usize = first;
            while at < 4
                invariant
                    1 <= first <= at <= 4,
                    points@ == self.control_points(),
                    forall|earlier: int, later: int|
                        0 <= earlier < later < 4 && earlier < first - 1 ==> !(#[trigger] points@[later]).equal_spec(
                            #[trigger] points@[earlier],
                        ),
                    forall|later: int|
                        first <= later < at ==> !(#[trigger] points@[later]).equal_spec(
                            points@[first - 1],
                        ),
                decreases 4 - at,
            {
                if points[at].equal(&points[first - 1]) {
                    assert(has_repeat(self.control_points()));
                    return false;
                }
                at = at + 1;
            }
            first = first + 1;
        }
        true
    }
}

/// A Bezier curve is valid exactly when its four control points are
/// distinct two by two, each later point compared with each earlier one.
pub proof fn lemma_valid_bezier_is_distinct<N: CurveScalar>(curve: BezierCurve<N>)
    ensures
        curve.valid_spec() <==> {
            &&& !curve.p1.equal_spec(curve.p0)
            &&& !curve.p2.equal_spec(curve.p0)
            &&& !curve.p3.equal_spec(curve.p0)
            &&& !curve.p2.equal_spec(curve.p1)
            &&& !curve.p3.equal_spec(curve.p1)
            &&& !curve.p3.equal_spec(curve.p2)
        },
{
    let points = curve.control_points();
    assert(points[0] == curve.p0 && points[1] == curve.p1 && points[2] == curve.p2 && points[3]
        == curve.p3);
    if has_repeat(points) {
        let (earlier, later) = choose|earlier: int, later: int|
            0 <= earlier < later < points.len() && (#[trigger] points[later]).equal_spec(
                #[trigger] points[earlier],
            );
        assert(points[later].equal_spec(points[earlier]));
    }
}

} // verus!
