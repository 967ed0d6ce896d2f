//! What every curve offers: a position for a parameter, and the tangent,
//! the sampled points and the polyline length that follow from positions.
use vstd::prelude::*;
use crate::scalar::CurveScalar;
use crate::vector::Vector3;

verus! {

/// The parameter of sample `index` out of `divisions`: `index / divisions`.
pub open spec fn sample_param_spec<N: CurveScalar>(index: usize, divisions: usize) -> N {
    N::from_usize_spec(index).over_spec(N::from_usize_spec(divisions))
}

/// The parameter of vertex `index` of a polyline of `divisions` segments:
/// zero for the first vertex, `index / divisions` for the others.
pub open spec fn vertex_param_spec<N: CurveScalar>(index: usize, divisions: usize) -> N {
    if index == 0 {
        N::zero_spec()
    } else {
        sample_param_spec(index, divisions)
    }
}

/// The two ends of the span a tangent at `t` is taken over: `t - delta`,
/// raised to zero where it falls below, and `t + delta`, lowered to one
/// where it rises above.
pub open spec fn tangent_span_spec<N: CurveScalar>(t: N, delta: N) -> (N, N) {
    let low = t.minus_spec(delta);
    let high = t.plus_spec(delta);
    (
        if low.less_spec(N::zero_spec()) {
            N::zero_spec()
        } else {
            low
        },
        if N::one_spec().less_spec(high) {
            N::one_spec()
        } else {
            high
        },
    )
}

/// The parameter of sample `index` out of `divisions`.
pub fn sample_param<N: CurveScalar>(index: usize, divisions: usize) -> (t: N)
    ensures
        t == sample_param_spec::<N>(index, divisions),
{
    N::from_usize(index).over(N::from_usize(divisions))
}

/// The parameter of vertex `index` of a polyline of `divisions` segments.
pub fn vertex_param<N: CurveScalar>(index: usize, divisions: usize) -> (t: N)
    ensures
        t == vertex_param_spec::<N>(index, divisions),
{
    if index == 0 {
        N::zero()
    } else {
        sample_param(index, divisions)
    }
}

/// The two ends of the span a tangent at `t` is taken over.
pub fn tangent_span<N: CurveScalar>(t: N, delta: N) -> (span: (N, N))
    ensures
        span == tangent_span_spec(t, delta),
{
    let mut t1 = t.minus(delta);
    let mut t2 = t.plus(delta);
    if t1.less(N::zero()) {
        t1 = N::zero();
    }
    if N::one().less(t2) {
        t2 = N::one();
    }
    (t1, t2)
}

/// The summed length of the first `segments` segments of the polyline
/// through `vertices`, added up from the first segment on.
pub open spec fn polyline_length<N: CurveScalar>(vertices: Seq<Vector3<N>>, segments: nat) -> N
    decreases segments,
{
    if segments == 0 {
        N::zero_spec()
    } else {
        polyline_length(vertices, (segments - 1) as nat).plus_spec(
            vertices[segments as int].distance_spec(vertices[segments - 1]),
        )
    }
}

/// A curve in space over the parameter range `[0, 1]`.
///
/// An implementation supplies `get_point_mut` and `valid`, and says with
/// `defined_at` where it can be evaluated and with `has_point` what an
/// evaluation may return. A curve whose scalar operations are all exact
/// functions has one point per parameter; one that takes a sine, a cosine
/// or a power has every point that those operations may lead to.
pub trait Curve<N: CurveScalar> {
    /// Whether the curve's data describes a curve at all.
    spec fn valid_spec(&self) -> bool;

    /// Whether the curve can be evaluated at `t`.
    spec fn defined_at(&self, t: N) -> bool;

    /// Whether `p` is a position the curve may take at `t`.
    spec fn has_point(&self, t: N, p: Vector3<N>) -> bool;

    /// The position at `t`.
    fn get_point(&self, t: N) -> (p: Vector3<N>)
        requires
            self.valid_spec(),
            self.defined_at(t),
        ensures
            self.has_point(t, p),
    {
        let mut v = Vector3::zeros();
        self.get_point_mut(t, &mut v);
        v
    }

    /// Writes the position at `t` to `v`.
    fn get_point_mut(&self, t: N, v: &mut Vector3<N>)
        requires
            self.defined_at(t),
        ensures
            self.has_point(t, *final(v)),
    ;

    /// The direction of the curve at `t`: the normalized difference of the
    /// positions at `t + delta` and `t - delta`, both kept within `[0, 1]`.
    /// Where the two positions coincide there is no direction, and the
    /// result is what normalizing the zero vector gives.
    fn get_tangent(&self, t: N, delta: N) -> (d: Vector3<N>)
        requires
            self.valid_spec(),
            self.defined_at(tangent_span_spec(t, delta).0),
            self.defined_at(tangent_span_spec(t, delta).1),
        ensures
            exists|a: Vector3<N>, b: Vector3<N>|
                #![trigger
                    self.has_point(tangent_span_spec(t, delta).0, a),
                    self.has_point(tangent_span_spec(t, delta).1, b),
                ]
                self.has_point(tangent_span_spec(t, delta).0, a) && self.has_point(
                    tangent_span_spec(t, delta).1,
                    b,
                ) && d == b.minus_spec(a).normalize_spec(),
    {
        let (t1, t2) = tangent_span(t, delta);
        let pt1 = self.get_point(t1);
        let pt2 = self.get_point(t2);
        pt2.minus(&pt1).normalize()
    }

    /// The length of the polyline through `divisions + 1` positions at
    /// evenly spaced parameters from zero to one.
    fn get_length(&self, divisions: usize) -> (length: N)
        requires
            self.valid_spec(),
            divisions > 1,
            forall|i: usize|
                i <= divisions ==> #[trigger] self.defined_at(vertex_param_spec(i, divisions)),
        ensures
            exists|vertices: Seq<Vector3<N>>|
                {
                    &&& vertices.len() == divisions + 1
                    &&& forall|i: usize|
                        i <= divisions ==> self.has_point(
                            vertex_param_spec(i, divisions),
                            #[trigger] vertices[i as int],
                        )
                    &&& length == polyline_length(vertices, divisions as nat)
                },
    {
        let n = N::from_usize(divisions);
        let mut acc = N::zero();
        assert(self.defined_at(vertex_param_spec::<N>(0, divisions)));
        let mut previous = self.get_point(N::zero());
        let ghost mut vertices: Seq<Vector3<N>> = seq![previous];
        let mut index: usize = 0;
        while index < divisions
            invariant
                self.valid_spec(),
                index <= divisions,
                n == N::from_usize_spec(divisions),
                forall|i: usize|
                    i <= divisions ==> #[trigger] self.defined_at(
                        vertex_param_spec(i, divisions),
                    ),
                vertices.len() == index + 1,
                previous == vertices[index as int],
                forall|i: usize|
                    i <= index ==> self.has_point(
                        vertex_param_spec(i, divisions),
                        #[trigger] vertices[i as int],
                    ),
                acc == polyline_length(vertices, index as nat),
            decreases divisions - index,
        {
            index = index + 1;
            let t = N::from_usize(index).over(n);
            assert(self.defined_at(vertex_param_spec::<N>(index, divisions)));
            let current = self.get_point(t);
            proof {
                let longer = vertices.push(current);
                lemma_polyline_length_prefix(vertices, longer, (index - 1) as nat);
                vertices = longer;
            }
            acc = acc.plus(current.distance(&previous));
            previous = current;
        }
        acc
    }

    /// Whether the curve's data describes a curve at all.
    fn valid(&self) -> (b: bool)
        ensures
            b == self.valid_spec(),
    ;
}

/// The length of the first `segments` segments depends on the first
/// `segments + 1` vertices only.
pub proof fn lemma_polyline_length_prefix<N: CurveScalar>(
    a: Seq<Vector3<N>>,
    b: Seq<Vector3<N>>,
    segments: nat,
)
    requires
        segments < a.len(),
        segments < b.len(),
        forall|i: int| 0 <= i <= segments ==> a[i] == b[i],
    ensures
        polyline_length(a, segments) == polyline_length(b, segments),
    decreases segments,
{
    if segments > 0 {
        lemma_polyline_length_prefix(a, b, (segments - 1) as nat);
    }
}

/// The positions of `curve` at the parameters `0 / divisions`,
/// `1 / divisions`, up to `(divisions - 1) / divisions`. The parameter one
/// is not among them.
pub fn get_points<N: CurveScalar, C: Curve<N>>(curve: &C, divisions: usize) -> (points: Vec<
    Vector3<N>,
>)
    requires
        curve.valid_spec(),
        divisions > 0,
        forall|i: usize|
            i < divisions ==> #[trigger] curve.defined_at(sample_param_spec(i, divisions)),
    ensures
        points.len() == divisions,
        forall|i: usize|
            i < divisions ==> curve.has_point(
                sample_param_spec(i, divisions),
                #[trigger] points[i as int],
            ),
{
    let n = N::from_usize(divisions);
    let mut points: Vec<Vector3<N>> = Vec::new();
    let mut index: usize = 0;
    while index < divisions
        invariant
            curve.valid_spec(),
            index <= divisions,
            n == N::from_usize_spec(divisions),
            forall|i: usize|
                i < divisions ==> #[trigger] curve.defined_at(sample_param_spec(i, divisions)),
            points.len() == index,
            forall|i: usize|
                i < index ==> curve.has_point(
                    sample_param_spec(i, divisions),
                    #[trigger] points[i as int],
                ),
        decreases divisions - index,
    {
        let t = N::from_usize(index).over(n);
        assert(curve.defined_at(sample_param_spec::<N>(index, divisions)));
        let point = curve.get_point(t);
        points.push(point);
        index = index + 1;
    }
    points
}

} // verus!
