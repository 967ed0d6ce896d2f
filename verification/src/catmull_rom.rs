//! Catmull-Rom splines: a smooth curve through a sequence of control points.
//!
//! An evaluation picks the segment between two neighbouring control points
//! that the parameter falls into, gathers the four control points around that
//! segment, builds one cubic polynomial per axis from them, and evaluates the
//! three polynomials at the position inside the segment.
use vstd::prelude::*;
use crate::curve::Curve;
use crate::scalar::CurveScalar;
use crate::vector::Vector3;

verus! {

/// How the control points' spacing enters the tangents of a spline.
#[derive(Clone, Copy, Debug, PartialEq, Eq, Hash, Structural)]
pub enum CatmullRomCurveType {
    /// Tangents scaled by the curve's tension, whatever the spacing.
    Uniform,
    /// Tangents weighted by the square roots of the distances.
    Centripetal,
    /// Tangents weighted by the distances.
    Chordal,
}

/// A cubic polynomial `c0 + c1 t + c2 t^2 + c3 t^3`: one axis of one
/// segment of a spline.
#[derive(Clone, Copy, Debug, PartialEq)]
pub struct CubicPoly<N: CurveScalar> {
    pub c0: N,
    pub c1: N,
    pub c2: N,
    pub c3: N,
}

impl<N: CurveScalar> CubicPoly<N> {
    /// The Hermite cubic that runs from `x0` to `x1` over `[0, 1]` with the
    /// slopes `t0` and `t1` at its ends:
    /// `c0 = x0`, `c1 = t0`, `c2 = -3 x0 + 3 x1 - 2 t0 - t1`,
    /// `c3 = 2 x0 - 2 x1 + t0 + t1`, each summed from the left.
    pub open spec fn new_spec(x0: N, x1: N, t0: N, t1: N) -> Self {
        CubicPoly {
            c0: x0,
            c1: t0,
            c2: N::from_i32_spec(-3i32).times_spec(x0).plus_spec(
                N::from_i32_spec(3).times_spec(x1),
            ).minus_spec(N::from_i32_spec(2).times_spec(t0)).minus_spec(t1),
            c3: N::from_i32_spec(2).times_spec(x0).minus_spec(
                N::from_i32_spec(2).times_spec(x1),
            ).plus_spec(t0).plus_spec(t1),
        }
    }

    /// The cubic between `x1` and `x2` whose end slopes are the tension
    /// times the differences `x2 - x0` and `x3 - x1`.
    pub open spec fn new_with_tension_spec(x0: N, x1: N, x2: N, x3: N, tension: N) -> Self {
        Self::new_spec(
            x1,
            x2,
            tension.times_spec(x2.minus_spec(x0)),
            tension.times_spec(x3.minus_spec(x1)),
        )
    }

    /// The slope at the inner end `b` of the gap `a..b` (of width `before`)
    /// that is followed by the gap `b..c` (of width `after`), for values
    /// spaced unevenly:
    /// `(b - a) / before - (c - a) / (before + after) + (c - b) / after`.
    pub open spec fn uneven_slope(a: N, b: N, c: N, before: N, after: N) -> N {
        b.minus_spec(a).over_spec(before).minus_spec(
            c.minus_spec(a).over_spec(before.plus_spec(after)),
        ).plus_spec(c.minus_spec(b).over_spec(after))
    }

    /// The cubic between `x1` and `x2` for values that lie `dt0`, `dt1` and
    /// `dt2` apart: its end slopes are the uneven slopes at `x1` and `x2`,
    /// each multiplied by `dt1`.
    pub open spec fn new_nonuniform_spec(
        x0: N,
        x1: N,
        x2: N,
        x3: N,
        dt0: N,
        dt1: N,
        dt2: N,
    ) -> Self {
        Self::new_spec(
            x1,
            x2,
            Self::uneven_slope(x0, x1, x2, dt0, dt1).times_spec(dt1),
            Self::uneven_slope(x1, x2, x3, dt1, dt2).times_spec(dt1),
        )
    }

    /// The value at `t`: `((c0 + c1 t) + c2 t^2) + c3 t^3`, with
    /// `t^2 = t t` and `t^3 = t^2 t`.
    pub open spec fn calc_spec(self, t: N) -> N {
        let t2 = t.times_spec(t);
        let t3 = t2.times_spec(t);
        self.c0.plus_spec(self.c1.times_spec(t)).plus_spec(self.c2.times_spec(t2)).plus_spec(
            self.c3.times_spec(t3),
        )
    }

    /// Builds the cubic from `x0` to `x1` with the end slopes `t0` and `t1`.
    pub fn new(x0: N, x1: N, t0: N, t1: N) -> (r: Self)
        ensures
            r == Self::new_spec(x0, x1, t0, t1),
    {
        let c0 = x0;
        let c1 = t0;
        let c2 = N::from_i32(-3).times(x0).plus(N::from_i32(3).times(x1)).minus(
            N::from_i32(2).times(t0),
        ).minus(t1);
        let c3 = N::from_i32(2).times(x0).minus(N::from_i32(2).times(x1)).plus(t0).plus(t1);
        CubicPoly { c0, c1, c2, c3 }
    }

    /// Builds the cubic between `x1` and `x2` with slopes scaled by `tension`.
    pub fn new_with_tension(x0: N, x1: N, x2: N, x3: N, tension: N) -> (r: Self)
        ensures
            r == Self::new_with_tension_spec(x0, x1, x2, x3, tension),
    {
        CubicPoly::new(x1, x2, tension.times(x2.minus(x0)), tension.times(x3.minus(x1)))
    }

    /// Builds the cubic between `x1` and `x2` for values `dt0`, `dt1` and
    /// `dt2` apart.
    pub fn new_nonuniform(x0: N, x1: N, x2: N, x3: N, dt0: N, dt1: N, dt2: N) -> (r: Self)
        ensures
            r == Self::new_nonuniform_spec(x0, x1, x2, x3, dt0, dt1, dt2),
    {
        let t1 = x1.minus(x0).over(dt0).minus(x2.minus(x0).over(dt0.plus(dt1))).plus(
            x2.minus(x1).over(dt1),
        );
        let t2 = x2.minus(x1).over(dt1).minus(x3.minus(x1).over(dt1.plus(dt2))).plus(
            x3.minus(x2).over(dt2),
        );
        let t1 = t1.times(dt1);
        let t2 = t2.times(dt1);
        CubicPoly::new(x1, x2, t1, t2)
    }

    /// Evaluates the cubic at `t`.
    pub fn calc(&self, t: N) -> (r: N)
        ensures
            r == self.calc_spec(t),
    {
        let t2 = t.times(t);
        let t3 = t2.times(t);
        self.c0.plus(self.c1.times(t)).plus(self.c2.times(t2)).plus(self.c3.times(t3))
    }
}

/// Where on a spline a parameter falls.
#[derive(Clone, Copy, Debug, PartialEq)]
pub struct Segment<N: CurveScalar> {
    /// The place among the control points of the point the segment starts at.
    pub index: usize,
    /// The position inside the segment, from zero at its start.
    pub weight: N,
}

/// The four control points that shape one segment: those the segment runs
/// between (`p1` and `p2`) and their outer neighbours (`p0` and `p3`).
#[derive(Clone, Copy, Debug, PartialEq)]
pub struct Window<N: CurveScalar> {
    pub p0: Vector3<N>,
    pub p1: Vector3<N>,
    pub p2: Vector3<N>,
    pub p3: Vector3<N>,
}

/// A segment number at or below zero, moved forward by whole rounds of
/// `count` until it is above zero; a number above zero as it is.
pub open spec fn wrapped_segment(segment: int, count: int) -> int {
    if segment <= 0 {
        segment + ((-segment) / count + 1) * count
    } else {
        segment
    }
}

/// The point that continues the line from `from` through `to` by the same
/// step again: `to + (to - from)`.
pub open spec fn extended<N: CurveScalar>(from: Vector3<N>, to: Vector3<N>) -> Vector3<N> {
    to.plus_spec(to.minus_spec(from))
}

/// The window of the segment that starts at control point `index`.
///
/// On a closed spline the neighbours are taken round the loop. On an open
/// one the neighbour before the first point and the one after the last are
/// made up by extending the end segments in a straight line.
pub open spec fn window_spec<N: CurveScalar>(
    points: Seq<Vector3<N>>,
    closed: bool,
    index: int,
) -> Window<N> {
    let n = points.len() as int;
    if closed {
        Window {
            p0: points[(index - 1) % n],
            p1: points[index],
            p2: points[(index + 1) % n],
            p3: points[(index + 2) % n],
        }
    } else {
        Window {
            p0: if index > 0 {
                points[index - 1]
            } else {
                extended(points[1], points[0])
            },
            p1: points[index],
            p2: points[index + 1],
            p3: if index + 2 < n {
                points[index + 2]
            } else {
                extended(points[n - 2], points[n - 1])
            },
        }
    }
}

/// The three cubics, one per axis, of a segment with evenly weighted
/// tangents.
pub open spec fn uniform_polys_spec<N: CurveScalar>(w: Window<N>, tension: N) -> (
    CubicPoly<N>,
    CubicPoly<N>,
    CubicPoly<N>,
) {
    (
        CubicPoly::new_with_tension_spec(w.p0.x, w.p1.x, w.p2.x, w.p3.x, tension),
        CubicPoly::new_with_tension_spec(w.p0.y, w.p1.y, w.p2.y, w.p3.y, tension),
        CubicPoly::new_with_tension_spec(w.p0.z, w.p1.z, w.p2.z, w.p3.z, tension),
    )
}

/// The gaps between the four points of a window, made safe to divide by: a
/// middle gap below epsilon becomes one, and an outer gap below epsilon
/// becomes the middle gap.
pub open spec fn settled_gaps<N: CurveScalar>(d0: N, d1: N, d2: N) -> (N, N, N) {
    let middle = if d1.less_spec(N::epsilon_spec()) {
        N::one_spec()
    } else {
        d1
    };
    (
        if d0.less_spec(N::epsilon_spec()) {
            middle
        } else {
            d0
        },
        middle,
        if d2.less_spec(N::epsilon_spec()) {
            middle
        } else {
            d2
        },
    )
}

/// The three cubics, one per axis, of a segment whose tangents are weighted
/// by the gaps `d0`, `d1` and `d2` between the window's points, once the
/// gaps are settled.
pub open spec fn nonuniform_polys_spec<N: CurveScalar>(w: Window<N>, d0: N, d1: N, d2: N) -> (
    CubicPoly<N>,
    CubicPoly<N>,
    CubicPoly<N>,
) {
    let (dt0, dt1, dt2) = settled_gaps(d0, d1, d2);
    (
        CubicPoly::new_nonuniform_spec(w.p0.x, w.p1.x, w.p2.x, w.p3.x, dt0, dt1, dt2),
        CubicPoly::new_nonuniform_spec(w.p0.y, w.p1.y, w.p2.y, w.p3.y, dt0, dt1, dt2),
        CubicPoly::new_nonuniform_spec(w.p0.z, w.p1.z, w.p2.z, w.p3.z, dt0, dt1, dt2),
    )
}

/// The power that the squared distances between control points are raised
/// to: a quarter for centripetal tangents, which makes the gap the square
/// root of the distance, and a half for chordal ones, which makes it the
/// distance. Uniform tangents take no power.
pub open spec fn gap_exponent_spec<N: CurveScalar>(kind: CatmullRomCurveType) -> N {
    match kind {
        CatmullRomCurveType::Centripetal => N::one_spec().over_spec(N::from_i32_spec(4)),
        _ => N::one_spec().over_spec(N::from_i32_spec(2)),
    }
}

/// Whether `d0`, `d1` and `d2` are powers that the scalar may give for the
/// squared distances between the window's neighbouring points.
pub open spec fn has_gaps<N: CurveScalar>(w: Window<N>, exponent: N, d0: N, d1: N, d2: N) -> bool {
    &&& w.p0.distance_squared_spec(w.p1).has_pow(exponent, d0)
    &&& w.p1.distance_squared_spec(w.p2).has_pow(exponent, d1)
    &&& w.p2.distance_squared_spec(w.p3).has_pow(exponent, d2)
}

/// The point whose coordinates are the three cubics' values at `weight`.
pub open spec fn polys_point_spec<N: CurveScalar>(
    polys: (CubicPoly<N>, CubicPoly<N>, CubicPoly<N>),
    weight: N,
) -> Vector3<N> {
    Vector3 {
        x: polys.0.calc_spec(weight),
        y: polys.1.calc_spec(weight),
        z: polys.2.calc_spec(weight),
    }
}

/// Whether `p` is a position that a segment with the window `w` may take at
/// `weight`. With uniform tangents there is one such position. With the
/// others there is one for each triple of gaps that the scalar's power may
/// give.
pub open spec fn has_segment_point<N: CurveScalar>(
    kind: CatmullRomCurveType,
    tension: N,
    w: Window<N>,
    weight: N,
    p: Vector3<N>,
) -> bool {
    match kind {
        CatmullRomCurveType::Uniform => p == polys_point_spec(
            uniform_polys_spec(w, tension),
            weight,
        ),
        _ => exists|d0: N, d1: N, d2: N|
            #![trigger nonuniform_polys_spec(w, d0, d1, d2)]
            has_gaps(w, gap_exponent_spec(kind), d0, d1, d2) && p == polys_point_spec(
                nonuniform_polys_spec(w, d0, d1, d2),
                weight,
            ),
    }
}

/// The remainder of `segment` by `count`, from zero up to `count - 1` also
/// for a negative segment number.
pub fn round_index(segment: i64, count: usize) -> (r: usize)
    requires
        count > 0,
    ensures
        r == (segment as int) % (count as int),
{
    let n: u64 = count as u64;
    if segment >= 0 {
        let r: u64 = (segment as u64) % n;
        r as usize
    } else {
        let below: u64 = (-(segment + 1)) as u64;
        let back: u64 = below % n;
        proof {
            lemma_negative_remainder(segment as int, count as int);
        }
        (n - 1 - back) as usize
    }
}

/// For a negative `a`, the remainder by `n` counts back from `n - 1` by the
/// remainder of `-a - 1`.
pub proof fn lemma_negative_remainder(a: int, n: int)
    requires
        a < 0,
        n > 0,
    ensures
        a % n == n - 1 - ((-a - 1) % n),
{
    let m = -a - 1;
    let q = m / n;
    let r = m % n;
    vstd::arithmetic::div_mod::lemma_fundamental_div_mod(m, n);
    assert(a == (-q - 1) * n + (n - 1 - r)) by (nonlinear_arith)
        requires
            m == n * q + r,
            a == -m - 1,
    ;
    vstd::arithmetic::div_mod::lemma_fundamental_div_mod_converse(a, n, -q - 1, n - 1 - r);
}

/// A spline through `points`, open or closed into a loop.
///
/// `tension` scales the tangents of a `Uniform` spline and is not read by
/// the other kinds.
#[derive(Clone, Debug, PartialEq)]
pub struct CatmullRomCurve<N: CurveScalar> {
    pub curve_type: CatmullRomCurveType,
    pub points: Vec<Vector3<N>>,
    pub closed: bool,
    pub tension: N,
}

impl<N: CurveScalar> CatmullRomCurve<N> {
    /// The number of segments, as a scalar: the number of control points on
    /// a closed spline, one less on an open one.
    pub open spec fn span_spec(&self) -> N {
        N::from_usize_spec(self.points.len()).minus_spec(
            if self.closed {
                N::zero_spec()
            } else {
                N::one_spec()
            },
        )
    }

    /// Whether a segment starts at control point `index`: at every point of
    /// a closed spline, at every point but the last of an open one.
    pub open spec fn holds_segment(&self, index: usize) -> bool {
        if self.closed {
            index < self.points.len()
        } else {
            index + 1 < self.points.len()
        }
    }

    /// The number of the segment that `t` falls into: the floor of
    /// `span * t` as an integer, or `None` where it is none that an `i64`
    /// holds.
    pub open spec fn number_spec(&self, t: N) -> Option<i64> {
        self.span_spec().times_spec(t).floor_spec().to_i64_spec()
    }

    /// The position of `t` inside its segment: `span * t` less its floor.
    pub open spec fn weight_spec(&self, t: N) -> N {
        self.span_spec().times_spec(t).minus_spec(self.span_spec().times_spec(t).floor_spec())
    }

    /// The segment that `t` falls into and the position inside it, or `None`
    /// where `t` leads to no segment of the spline.
    ///
    /// On a closed spline with at least one point every segment number
    /// counts, taken round the loop. On an open spline of `n` points the
    /// numbers `0` to `n - 2` count, and the number `n - 1` with weight zero
    /// stands for the end of the last segment: it becomes segment `n - 2`
    /// with the span as its weight.
    pub open spec fn segment_spec(&self, t: N) -> Option<Segment<N>> {
        let n = self.points.len() as int;
        let weight = self.weight_spec(t);
        match self.number_spec(t) {
            None => None,
            Some(floor) => {
                let number = floor as int;
                if self.closed {
                    if n == 0 {
                        None
                    } else {
                        Some(Segment { index: (number % n) as usize, weight })
                    }
                } else if n >= 2 && number == n - 1 && weight.equal_spec(N::zero_spec()) {
                    Some(Segment { index: (n - 2) as usize, weight: self.span_spec() })
                } else if 0 <= number && number + 1 < n {
                    Some(Segment { index: number as usize, weight })
                } else {
                    None
                }
            },
        }
    }

    /// The number of segments, as a scalar.
    pub fn span(&self) -> (r: N)
        ensures
            r == self.span_spec(),
    {
        let len = N::from_usize(self.points.len());
        if self.closed {
            len.minus(N::zero())
        } else {
            len.minus(N::one())
        }
    }

    /// Finds the segment for `t`. A caller that gets `Some` may evaluate the
    /// spline at `t`.
    pub fn segment_at(&self, t: N) -> (r: Option<Segment<N>>)
        ensures
            r == self.segment_spec(t),
            r matches Some(segment) ==> self.holds_segment(segment.index),
    {
        let n: usize = self.points.len();
        let span = self.span();
        let p = span.times(t);
        let whole = p.floor();
        let weight = p.minus(whole);
        match whole.to_i64() {
            None => None,
            Some(number) => {
                if self.closed {
                    if n == 0 {
                        None
                    } else {
                        Some(Segment { index: round_index(number, n), weight })
                    }
                } else if n >= 2 && number >= 0 && number as u64 == (n - 1) as u64 && weight.equal(
                    N::zero(),
                ) {
                    Some(Segment { index: n - 2, weight: span })
                } else if number >= 0 && (number as u64) < (n as u64) && number as u64 + 1 < n as u64 {
                    Some(Segment { index: number as usize, weight })
                } else {
                    None
                }
            },
        }
    }

    /// Gathers the four control points around the segment that starts at
    /// control point `index`.
    pub fn window(&self, index: usize) -> (w: Window<N>)
        requires
            self.holds_segment(index),
        ensures
            w == window_spec(self.points@, self.closed, index as int),
    {
        let n: usize = self.points.len();
        if self.closed {
            let before: usize = if index == 0 {
                n - 1
            } else {
                index - 1
            };
            let after: usize = if index + 1 == n {
                0
            } else {
                index + 1
            };
            let beyond: usize = if after + 1 == n {
                0
            } else {
                after + 1
            };
            proof {
                lemma_neighbours_round(index as int, n as int);
            }
            Window {
                p0: self.points[before],
                p1: self.points[index],
                p2: self.points[after],
                p3: self.points[beyond],
            }
        } else {
            let p0 = if index > 0 {
                self.points[index - 1]
            } else {
                self.points[0].plus(&self.points[0].minus(&self.points[1]))
            };
            let p3 = if index + 2 < n {
                self.points[index + 2]
            } else {
                self.points[n - 1].plus(&self.points[n - 1].minus(&self.points[n - 2]))
            };
            Window { p0, p1: self.points[index], p2: self.points[index + 1], p3 }
        }
    }
}

/// The neighbours of a place in a loop of `n` places: one step back from
/// the first place is the last, and one step on from the last is the first.
pub proof fn lemma_neighbours_round(index: int, n: int)
    requires
        0 <= index < n,
    ensures
        (index - 1) % n == (if index == 0 {
            n - 1
        } else {
            index - 1
        }),
        (index + 1) % n == (if index + 1 == n {
            0
        } else {
            index + 1
        }),
        (index + 2) % n == (if (index + 1) % n + 1 == n {
            0
        } else {
            (index + 1) % n + 1
        }),
{
    if index == 0 {
        vstd::arithmetic::div_mod::lemma_fundamental_div_mod_converse(index - 1, n, -1, n - 1);
    } else {
        vstd::arithmetic::div_mod::lemma_fundamental_div_mod_converse(index - 1, n, 0, index - 1);
    }
    if index + 1 == n {
        vstd::arithmetic::div_mod::lemma_fundamental_div_mod_converse(index + 1, n, 1, 0);
        if n == 1 {
            vstd::arithmetic::div_mod::lemma_fundamental_div_mod_converse(index + 2, n, 2, 0);
        } else {
            vstd::arithmetic::div_mod::lemma_fundamental_div_mod_converse(index + 2, n, 1, 1);
        }
    } else {
        vstd::arithmetic::div_mod::lemma_fundamental_div_mod_converse(index + 1, n, 0, index + 1);
        if index + 2 == n {
            vstd::arithmetic::div_mod::lemma_fundamental_div_mod_converse(index + 2, n, 1, 0);
        } else {
            vstd::arithmetic::div_mod::lemma_fundamental_div_mod_converse(
                index + 2,
                n,
                0,
                index + 2,
            );
        }
    }
}

/// Builds the three cubics of a segment with evenly weighted tangents.
pub fn uniform_polys<N: CurveScalar>(w: &Window<N>, tension: N) -> (r: (
    CubicPoly<N>,
    CubicPoly<N>,
    CubicPoly<N>,
))
    ensures
        r == uniform_polys_spec(*w, tension),
{
    (
        CubicPoly::new_with_tension(w.p0.x, w.p1.x, w.p2.x, w.p3.x, tension),
        CubicPoly::new_with_tension(w.p0.y, w.p1.y, w.p2.y, w.p3.y, tension),
        CubicPoly::new_with_tension(w.p0.z, w.p1.z, w.p2.z, w.p3.z, tension),
    )
}

/// Builds the three cubics of a segment from the gaps `d0`, `d1` and `d2`
/// between the window's points, settling the gaps first.
pub fn nonuniform_polys<N: CurveScalar>(w: &Window<N>, d0: N, d1: N, d2: N) -> (r: (
    CubicPoly<N>,
    CubicPoly<N>,
    CubicPoly<N>,
))
    ensures
        r == nonuniform_polys_spec(*w, d0, d1, d2),
{
    let mut dt0 = d0;
    let mut dt1 = d1;
    let mut dt2 = d2;
    if dt1.less(N::epsilon()) {
        dt1 = N::one();
    }
    if dt0.less(N::epsilon()) {
        dt0 = dt1;
    }
    if dt2.less(N::epsilon()) {
        dt2 = dt1;
    }
    (
        CubicPoly::new_nonuniform(w.p0.x, w.p1.x, w.p2.x, w.p3.x, dt0, dt1, dt2),
        CubicPoly::new_nonuniform(w.p0.y, w.p1.y, w.p2.y, w.p3.y, dt0, dt1, dt2),
        CubicPoly::new_nonuniform(w.p0.z, w.p1.z, w.p2.z, w.p3.z, dt0, dt1, dt2),
    )
}

/// The power for the gaps of a `kind` of spline.
pub fn gap_exponent<N: CurveScalar>(kind: CatmullRomCurveType) -> (r: N)
    ensures
        r == gap_exponent_spec::<N>(kind),
{
    match kind {
        CatmullRomCurveType::Centripetal => N::one().over(N::from_i32(4)),
        _ => N::one().over(N::from_i32(2)),
    }
}

/// Raises the squared distances between the window's neighbouring points
/// to `exponent`.
pub fn gaps<N: CurveScalar>(w: &Window<N>, exponent: N) -> (r: (N, N, N))
    ensures
        has_gaps(*w, exponent, r.0, r.1, r.2),
{
    (
        w.p0.distance_squared(&w.p1).pow(exponent),
        w.p1.distance_squared(&w.p2).pow(exponent),
        w.p2.distance_squared(&w.p3).pow(exponent),
    )
}

/// Evaluates the three cubics at `weight`.
pub fn polys_point<N: CurveScalar>(
    polys: &(CubicPoly<N>, CubicPoly<N>, CubicPoly<N>),
    weight: N,
) -> (p: Vector3<N>)
    ensures
        p == polys_point_spec(*polys, weight),
{
    Vector3 { x: polys.0.calc(weight), y: polys.1.calc(weight), z: polys.2.calc(weight) }
}

/// The position at `weight` on the segment with the window `w`.
pub fn segment_point<N: CurveScalar>(
    kind: CatmullRomCurveType,
    tension: N,
    w: &Window<N>,
    weight: N,
) -> (p: Vector3<N>)
    ensures
        has_segment_point(kind, tension, *w, weight, p),
{
    match kind {
        CatmullRomCurveType::Uniform => {
            let polys = uniform_polys(w, tension);
            polys_point(&polys, weight)
        },
        _ => {
            let (d0, d1, d2) = gaps(w, gap_exponent(kind));
            let polys = nonuniform_polys(w, d0, d1, d2);
            polys_point(&polys, weight)
        },
    }
}

impl<N: CurveScalar> Curve<N> for CatmullRomCurve<N> {
    /// A spline needs at least four control points.
    open spec fn valid_spec(&self) -> bool {
        self.points.len() > 3
    }

    /// The spline can be evaluated where the parameter falls into one of
    /// its segments.
    open spec fn defined_at(&self, t: N) -> bool {
        self.segment_spec(t) is Some
    }

    /// The positions at `t` are those of the segment `t` falls into, with
    /// that segment's window, at the weight `t` has inside it.
    open spec fn has_point(&self, t: N, p: Vector3<N>) -> bool {
        match self.segment_spec(t) {
            Some(segment) => has_segment_point(
                self.curve_type,
                self.tension,
                window_spec(self.points@, self.closed, segment.index as int),
                segment.weight,
                p,
            ),
            None => false,
        }
    }

    fn get_point_mut(&self, t: N, v: &mut Vector3<N>) {
        let segment = self.segment_at(t).unwrap();
        let w = self.window(segment.index);
        *v = segment_point(self.curve_type, self.tension, &w, segment.weight);
    }

    fn valid(&self) -> (b: bool)
        ensures
            b == (self.points.len() >= 4),
    {
        self.points.len() > 3
    }
}

/// Moving a segment number forward as `wrapped_segment` does changes
/// neither the control point it starts at nor, therefore, its window; and
/// it brings a number at or below zero into the range from one to `count`.
pub proof fn lemma_wrapped_segment(segment: int, count: int)
    requires
        count > 0,
    ensures
        wrapped_segment(segment, count) % count == segment % count,
        segment <= 0 ==> 0 < wrapped_segment(segment, count) <= count,
{
    if segment <= 0 {
        let rounds = (-segment) / count + 1;
        vstd::arithmetic::div_mod::lemma_fundamental_div_mod(-segment, count);
        vstd::arithmetic::div_mod::lemma_mod_multiples_vanish(rounds, segment, count);
        assert(0 < segment + rounds * count <= count) by (nonlinear_arith)
            requires
                -segment == count * ((-segment) / count) + ((-segment) % count),
                0 <= (-segment) % count < count,
                rounds == (-segment) / count + 1,
        ;
        assert(count * rounds + segment == segment + rounds * count) by (nonlinear_arith);
    }
}

/// A closed spline repeats itself: two parameters whose segment numbers
/// lie a whole number of rounds apart, at the same weight, have the same
/// positions. So the loop ends where it starts.
pub proof fn lemma_closed_spline_repeats<N: CurveScalar>(
    curve: CatmullRomCurve<N>,
    t: N,
    u: N,
    rounds: int,
    p: Vector3<N>,
)
    requires
        curve.closed,
        curve.points.len() > 0,
        curve.number_spec(t) is Some,
        curve.number_spec(u) is Some,
        curve.number_spec(u).unwrap() == curve.number_spec(t).unwrap() + rounds
            * curve.points.len(),
        curve.weight_spec(u) == curve.weight_spec(t),
    ensures
        curve.defined_at(t),
        curve.defined_at(u),
        curve.has_point(t, p) == curve.has_point(u, p),
{
    let n = curve.points.len() as int;
    let a = curve.number_spec(t).unwrap() as int;
    let b = curve.number_spec(u).unwrap() as int;
    vstd::arithmetic::div_mod::lemma_mod_multiples_vanish(rounds, a, n);
    assert(n * rounds + a == b) by (nonlinear_arith)
        requires
            b == a + rounds * n,
    ;
    assert(curve.segment_spec(t) == curve.segment_spec(u));
}

} // verus!
