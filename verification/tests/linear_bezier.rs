use curves::{
    cubic_bezier, cubic_bezier_p0, cubic_bezier_p1, cubic_bezier_p2, cubic_bezier_p3, get_points,
    BezierCurve, Curve, CurveScalar, LinearCurve, PointContainer, Vector3,
};
use nalgebra::RealField;
use num_traits::{Float, FromPrimitive, Pow, ToPrimitive};

#[derive(Clone, Copy, Debug, PartialEq, PartialOrd)]
struct Single(f32);

impl CurveScalar for Single {
    fn zero_spec() -> Self {
        Single(0.0)
    }

    fn one_spec() -> Self {
        Single(1.0)
    }

    fn epsilon_spec() -> Self {
        Single(f32::EPSILON)
    }

    fn two_pi_spec() -> Self {
        Single(<f32 as RealField>::two_pi())
    }

    fn from_usize_spec(n: usize) -> Self {
        Single(<f32 as FromPrimitive>::from_usize(n).unwrap())
    }

    fn from_i32_spec(n: i32) -> Self {
        Single(<f32 as FromPrimitive>::from_i32(n).unwrap())
    }

    fn to_i64_spec(self) -> Option<i64> {
        ToPrimitive::to_i64(&self.0)
    }

    fn plus_spec(self, rhs: Self) -> Self {
        Single(self.0 + rhs.0)
    }

    fn minus_spec(self, rhs: Self) -> Self {
        Single(self.0 - rhs.0)
    }

    fn times_spec(self, rhs: Self) -> Self {
        Single(self.0 * rhs.0)
    }

    fn over_spec(self, rhs: Self) -> Self {
        Single(self.0 / rhs.0)
    }

    fn negated_spec(self) -> Self {
        Single(-self.0)
    }

    fn floor_spec(self) -> Self {
        Single(Float::floor(self.0))
    }

    fn sqrt_spec(self) -> Self {
        Single(Float::sqrt(self.0))
    }

    fn less_spec(self, rhs: Self) -> bool {
        self.0 < rhs.0
    }

    fn equal_spec(self, rhs: Self) -> bool {
        self.0 == rhs.0
    }

    fn has_sin(self, r: Self) -> bool {
        r.0 == Float::sin(self.0)
    }

    fn has_cos(self, r: Self) -> bool {
        r.0 == Float::cos(self.0)
    }

    fn has_pow(self, exp: Self, r: Self) -> bool {
        r.0 == Pow::pow(self.0, exp.0)
    }

    fn zero() -> Self {
        Single(0.0)
    }

    fn one() -> Self {
        Single(1.0)
    }

    fn epsilon() -> Self {
        Single(<f32 as Float>::epsilon())
    }

    fn two_pi() -> Self {
        Single(<f32 as RealField>::two_pi())
    }

    fn from_usize(n: usize) -> Self {
        Single(<f32 as FromPrimitive>::from_usize(n).unwrap())
    }

    fn from_i32(n: i32) -> Self {
        Single(<f32 as FromPrimitive>::from_i32(n).unwrap())
    }

    fn to_i64(self) -> Option<i64> {
        ToPrimitive::to_i64(&self.0)
    }

    fn plus(self, rhs: Self) -> Self {
        Single(self.0 + rhs.0)
    }

    fn minus(self, rhs: Self) -> Self {
        Single(self.0 - rhs.0)
    }

    fn times(self, rhs: Self) -> Self {
        Single(self.0 * rhs.0)
    }

    fn over(self, rhs: Self) -> Self {
        Single(self.0 / rhs.0)
    }

    fn negated(self) -> Self {
        Single(-self.0)
    }

    fn floor(self) -> Self {
        Single(Float::floor(self.0))
    }

    fn sqrt(self) -> Self {
        Single(Float::sqrt(self.0))
    }

    fn less(self, rhs: Self) -> bool {
        self.0 < rhs.0
    }

    fn equal(self, rhs: Self) -> bool {
        self.0 == rhs.0
    }

    fn sin(self) -> Self {
        Single(Float::sin(self.0))
    }

    fn cos(self) -> Self {
        Single(Float::cos(self.0))
    }

    fn pow(self, exp: Self) -> Self {
        Single(Pow::pow(self.0, exp.0))
    }
}

#[derive(Clone, Copy, Debug, PartialEq, PartialOrd)]
struct Double(f64);

impl CurveScalar for Double {
    fn zero_spec() -> Self {
        Double(0.0)
    }

    fn one_spec() -> Self {
        Double(1.0)
    }

    fn epsilon_spec() -> Self {
        Double(f64::EPSILON)
    }

    fn two_pi_spec() -> Self {
        Double(<f64 as RealField>::two_pi())
    }

    fn from_usize_spec(n: usize) -> Self {
        Double(<f64 as FromPrimitive>::from_usize(n).unwrap())
    }

    fn from_i32_spec(n: i32) -> Self {
        Double(<f64 as FromPrimitive>::from_i32(n).unwrap())
    }

    fn to_i64_spec(self) -> Option<i64> {
        ToPrimitive::to_i64(&self.0)
    }

    fn plus_spec(self, rhs: Self) -> Self {
        Double(self.0 + rhs.0)
    }

    fn minus_spec(self, rhs: Self) -> Self {
        Double(self.0 - rhs.0)
    }

    fn times_spec(self, rhs: Self) -> Self {
        Double(self.0 * rhs.0)
    }

    fn over_spec(self, rhs: Self) -> Self {
        Double(self.0 / rhs.0)
    }

    fn negated_spec(self) -> Self {
        Double(-self.0)
    }

    fn floor_spec(self) -> Self {
        Double(Float::floor(self.0))
    }

    fn sqrt_spec(self) -> Self {
        Double(Float::sqrt(self.0))
    }

    fn less_spec(self, rhs: Self) -> bool {
        self.0 < rhs.0
    }

    fn equal_spec(self, rhs: Self) -> bool {
        self.0 == rhs.0
    }

    fn has_sin(self, r: Self) -> bool {
        r.0 == Float::sin(self.0)
    }

    fn has_cos(self, r: Self) -> bool {
        r.0 == Float::cos(self.0)
    }

    fn has_pow(self, exp: Self, r: Self) -> bool {
        r.0 == Pow::pow(self.0, exp.0)
    }

    fn zero() -> Self {
        Double(0.0)
    }

    fn one() -> Self {
        Double(1.0)
    }

    fn epsilon() -> Self {
        Double(<f64 as Float>::epsilon())
    }

    fn two_pi() -> Self {
        Double(<f64 as RealField>::two_pi())
    }

    fn from_usize(n: usize) -> Self {
        Double(<f64 as FromPrimitive>::from_usize(n).unwrap())
    }

    fn from_i32(n: i32) -> Self {
        Double(<f64 as FromPrimitive>::from_i32(n).unwrap())
    }

    fn to_i64(self) -> Option<i64> {
        ToPrimitive::to_i64(&self.0)
    }

    fn plus(self, rhs: Self) -> Self {
        Double(self.0 + rhs.0)
    }

    fn minus(self, rhs: Self) -> Self {
        Double(self.0 - rhs.0)
    }

    fn times(self, rhs: Self) -> Self {
        Double(self.0 * rhs.0)
    }

    fn over(self, rhs: Self) -> Self {
        Double(self.0 / rhs.0)
    }

    fn negated(self) -> Self {
        Double(-self.0)
    }

    fn floor(self) -> Self {
        Double(Float::floor(self.0))
    }

    fn sqrt(self) -> Self {
        Double(Float::sqrt(self.0))
    }

    fn less(self, rhs: Self) -> bool {
        self.0 < rhs.0
    }

    fn equal(self, rhs: Self) -> bool {
        self.0 == rhs.0
    }

    fn sin(self) -> Self {
        Double(Float::sin(self.0))
    }

    fn cos(self) -> Self {
        Double(Float::cos(self.0))
    }

    fn pow(self, exp: Self) -> Self {
        Double(Pow::pow(self.0, exp.0))
    }
}

fn single(v: nalgebra::Vector3<f32>) -> Vector3<Single> {
    Vector3 { x: Single(v.x), y: Single(v.y), z: Single(v.z) }
}

fn double(v: nalgebra::Vector3<f64>) -> Vector3<Double> {
    Vector3 { x: Double(v.x), y: Double(v.y), z: Double(v.z) }
}

fn at(x: f64, y: f64, z: f64) -> Vector3<Double> {
    Vector3 { x: Double(x), y: Double(y), z: Double(z) }
}

#[test]
fn test_get_point() {
    let curve = LinearCurve {
        start: single(nalgebra::Vector3::zeros()),
        end: single(nalgebra::Vector3::from_element(1f32)),
    };

    assert!(curve.valid());
    for i in 0..10 {
        let t = i as f32 / 10f32;
        assert_eq!(curve.get_point(Single(t)), single(nalgebra::Vector3::from_element(t)));
    }

    let curve = LinearCurve {
        start: double(nalgebra::Vector3::zeros()),
        end: double(nalgebra::Vector3::from_element(1f64)),
    };

    assert!(curve.valid());
    let points: Vec<_> = get_points(&curve, 10);
    for i in 0..10 {
        let t = i as f64 / 10f64;
        let point = curve.get_point(Double(t));
        assert_eq!(points[i], point);
        assert_eq!(point, double(nalgebra::Vector3::from_element(t)));
    }
}

#[test]
fn test_valid() {
    let curve: LinearCurve<Double> = LinearCurve {
        start: double(nalgebra::Vector3::zeros()),
        end: double(nalgebra::Vector3::zeros()),
    };

    assert!(!curve.valid());
}

#[test]
fn test_get_length() {
    let curve = LinearCurve {
        start: single(nalgebra::Vector3::zeros()),
        end: single(nalgebra::Vector3::from_element(1f32).normalize()),
    };

    for i in 2..100 {
        let len = curve.get_length(i).0;
        assert!((len - 1f32).abs() < 1e-4f32, "Failed for {}. Length = {}", i, len);
    }
}

#[test]
fn linear_point_is_start_times_rest_plus_end_times_t() {
    let curve = LinearCurve { start: at(1.0, -2.0, 0.5), end: at(4.0, 6.0, -1.5) };
    for i in 0..10 {
        let t = i as f64 / 10.0;
        let expected = at(
            1.0 * (1.0 - t) + 4.0 * t,
            -2.0 * (1.0 - t) + 6.0 * t,
            0.5 * (1.0 - t) + -1.5 * t,
        );
        assert_eq!(curve.get_point(Double(t)), expected);
        let mut v = at(9.0, 9.0, 9.0);
        curve.get_point_mut(Double(t), &mut v);
        assert_eq!(v, expected);
    }
    assert_eq!(curve.get_point(Double(0.0)), at(1.0, -2.0, 0.5));
    assert_eq!(curve.get_point(Double(1.0)), at(4.0, 6.0, -1.5));
}

#[test]
fn linear_midpoint_of_the_unit_diagonal() {
    let curve = LinearCurve { start: at(0.0, 0.0, 0.0), end: at(1.0, 1.0, 1.0) };
    assert_eq!(curve.get_point(Double(0.5)), at(0.5, 0.5, 0.5));
}

#[test]
fn linear_point_beyond_the_ends_continues_the_line() {
    let curve = LinearCurve { start: at(0.0, 0.0, 0.0), end: at(2.0, 4.0, -2.0) };
    assert_eq!(curve.get_point(Double(1.5)), at(3.0, 6.0, -3.0));
    assert_eq!(curve.get_point(Double(-0.5)), at(-1.0, -2.0, 1.0));
}

#[test]
fn linear_valid_is_false_only_for_equal_ends() {
    assert!(!LinearCurve { start: at(1.0, 2.0, 3.0), end: at(1.0, 2.0, 3.0) }.valid());
    assert!(LinearCurve { start: at(1.0, 2.0, 3.0), end: at(1.0, 2.0, 3.5) }.valid());
    assert!(LinearCurve { start: at(1.0, 2.0, 3.0), end: at(0.0, 2.0, 3.0) }.valid());
    assert!(LinearCurve { start: at(1.0, 2.0, 3.0), end: at(1.0, -2.0, 3.0) }.valid());
    assert!(!LinearCurve { start: at(0.0, 0.0, 0.0), end: at(-0.0, 0.0, 0.0) }.valid());
    assert!(LinearCurve { start: at(f64::NAN, 0.0, 0.0), end: at(f64::NAN, 0.0, 0.0) }.valid());
}

#[test]
fn get_points_samples_at_whole_fractions_and_stops_before_one() {
    let curve = LinearCurve { start: at(0.0, 0.0, 0.0), end: at(8.0, 0.0, 0.0) };
    let points = get_points(&curve, 4);
    assert_eq!(points, vec![at(0.0, 0.0, 0.0), at(2.0, 0.0, 0.0), at(4.0, 0.0, 0.0), at(6.0, 0.0, 0.0)]);
    let one = get_points(&curve, 1);
    assert_eq!(one, vec![at(0.0, 0.0, 0.0)]);
    for n in 1..20usize {
        let points = get_points(&curve, n);
        assert_eq!(points.len(), n);
        for i in 0..n {
            assert_eq!(points[i], curve.get_point(Double(i as f64 / n as f64)));
            assert_ne!(points[i], curve.get_point(Double(1.0)));
        }
    }
}

#[test]
fn get_length_adds_the_steps_of_the_polyline() {
    let curve = LinearCurve { start: at(0.0, 0.0, 0.0), end: at(3.0, 4.0, 0.0) };
    assert_eq!(curve.get_length(2), Double(5.0));
    let t = 1.0 / 3.0;
    let u = 2.0 / 3.0;
    let step = |a: f64, b: f64| {
        let dx = 3.0 * b - 3.0 * a;
        let dy = 4.0 * b - 4.0 * a;
        (dx * dx + dy * dy + 0.0).sqrt()
    };
    let p = |t: f64| 0.0 * (1.0 - t) + 1.0 * t;
    let expected = 0.0 + step(p(0.0), p(t)) + step(p(t), p(u)) + step(p(u), p(1.0));
    assert!((curve.get_length(3).0 - expected).abs() < 1e-12);
    assert!((curve.get_length(3).0 - 5.0).abs() < 1e-12);
}

#[test]
fn get_tangent_of_a_segment_is_its_direction() {
    let curve = LinearCurve { start: at(0.0, 0.0, 0.0), end: at(0.0, 3.0, 4.0) };
    let tangent = curve.get_tangent(Double(0.5), Double(0.25));
    assert!((tangent.x.0 - 0.0).abs() < 1e-12);
    assert!((tangent.y.0 - 0.6).abs() < 1e-12);
    assert!((tangent.z.0 - 0.8).abs() < 1e-12);
}

#[test]
fn get_tangent_keeps_its_span_inside_the_curve() {
    let curve = LinearCurve { start: at(0.0, 0.0, 0.0), end: at(2.0, 0.0, 0.0) };
    let low = curve.get_point(Double(0.0));
    let high = curve.get_point(Double(0.25));
    assert_eq!(curve.get_tangent(Double(0.0), Double(0.25)), high.minus(&low).normalize());
    let low = curve.get_point(Double(0.75));
    let high = curve.get_point(Double(1.0));
    assert_eq!(curve.get_tangent(Double(1.0), Double(0.25)), high.minus(&low).normalize());
    assert_eq!(curve.get_tangent(Double(0.5), Double(9.0)), at(1.0, 0.0, 0.0));
}

#[test]
fn get_tangent_of_coinciding_points_has_no_direction() {
    let curve = LinearCurve { start: at(0.0, 0.0, 0.0), end: at(2.0, 0.0, 0.0) };
    let tangent = curve.get_tangent(Double(0.5), Double(0.0));
    assert!(tangent.x.0.is_nan() && tangent.y.0.is_nan() && tangent.z.0.is_nan());
}

#[test]
fn vector_operations_agree_with_the_matrix_library() {
    let a = nalgebra::Vector3::new(1.5f64, -2.25, 0.125);
    let b = nalgebra::Vector3::new(-0.75f64, 3.0, 10.0);
    assert_eq!(double(a).plus(&double(b)), double(a + b));
    assert_eq!(double(a).minus(&double(b)), double(a - b));
    assert_eq!(double(a).scale(Double(3.5)), double(a.scale(3.5)));
    assert_eq!(double(a).unscale(Double(3.5)), double(a.unscale(3.5)));
    assert_eq!(double(a).cross(&double(b)), double(a.cross(&b)));
    assert_eq!(double(a).norm_squared(), Double(a.norm_squared()));
    assert_eq!(double(a).norm(), Double(a.norm()));
    assert_eq!(double(a).normalize(), double(a.normalize()));
    assert_eq!(double(a).distance(&double(b)), Double((a - b).norm()));
    assert_eq!(double(a).distance_squared(&double(b)), Double((a - b).norm_squared()));
    assert_eq!(double(a).equal(&double(b)), a == b);
    assert!(double(a).equal(&double(a)));
    assert_eq!(Vector3::<Double>::zeros(), double(nalgebra::Vector3::zeros()));
    assert_eq!(Vector3::new(Double(1.0), Double(2.0), Double(3.0)), at(1.0, 2.0, 3.0));
}

#[test]
fn cubic_bezier_terms_are_the_bernstein_polynomials() {
    let t = Double(0.25);
    assert_eq!(cubic_bezier_p0(t, Double(2.0)), Double(0.75 * 0.75 * 0.75 * 2.0));
    assert_eq!(cubic_bezier_p1(t, Double(2.0)), Double(3.0 * 0.75 * 0.75 * 0.25 * 2.0));
    assert_eq!(cubic_bezier_p2(t, Double(2.0)), Double(3.0 * 0.75 * 0.25 * 0.25 * 2.0));
    assert_eq!(cubic_bezier_p3(t, Double(2.0)), Double(0.25 * 0.25 * 0.25 * 2.0));
    assert_eq!(
        cubic_bezier(t, Double(1.0), Double(2.0), Double(4.0), Double(8.0)),
        Double(0.421875 + 0.84375 + 0.5625 + 0.125)
    );
    assert_eq!(cubic_bezier(Double(0.0), Double(1.0), Double(2.0), Double(4.0), Double(8.0)), Double(1.0));
    assert_eq!(cubic_bezier(Double(1.0), Double(1.0), Double(2.0), Double(4.0), Double(8.0)), Double(8.0));
}

#[test]
fn bezier_point_blends_each_axis() {
    let curve = BezierCurve {
        p0: at(0.0, 0.0, 1.0),
        p1: at(1.0, 2.0, 1.0),
        p2: at(3.0, 3.0, 1.0),
        p3: at(4.0, 0.0, 1.0),
    };
    assert!(curve.valid());
    assert_eq!(curve.get_point(Double(0.5)), at(2.0, 1.875, 1.0));
    assert_eq!(curve.get_point(Double(0.0)), at(0.0, 0.0, 1.0));
    assert_eq!(curve.get_point(Double(1.0)), at(4.0, 0.0, 1.0));
    let mut v = at(0.0, 0.0, 0.0);
    curve.get_point_mut(Double(0.5), &mut v);
    assert_eq!(v, at(2.0, 1.875, 1.0));
}

#[test]
fn bezier_valid_is_false_for_each_repeated_pair() {
    let distinct = [at(0.0, 0.0, 0.0), at(1.0, 0.0, 0.0), at(2.0, 1.0, 0.0), at(3.0, 0.0, 5.0)];
    let curve = |p: [Vector3<Double>; 4]| BezierCurve { p0: p[0], p1: p[1], p2: p[2], p3: p[3] };
    assert!(curve(distinct).valid());
    for earlier in 0..4 {
        for later in (earlier + 1)..4 {
            let mut points = distinct;
            points[later] = points[earlier];
            assert!(!curve(points).valid(), "{} repeats {}", later, earlier);
        }
    }
    assert!(!curve([distinct[0]; 4]).valid());
}

#[test]
fn bezier_length_approaches_the_straight_line() {
    let curve = BezierCurve {
        p0: at(0.0, 0.0, 0.0),
        p1: at(1.0, 0.0, 0.0),
        p2: at(2.0, 0.0, 0.0),
        p3: at(3.0, 0.0, 0.0),
    };
    assert!((curve.get_length(16).0 - 3.0).abs() < 1e-12);
    let sampled = get_points(&curve, 3);
    assert_eq!(sampled.len(), 3);
    assert_eq!(sampled[0], at(0.0, 0.0, 0.0));
    assert!((sampled[1].x.0 - 1.0).abs() < 1e-12);
    assert!((sampled[2].x.0 - 2.0).abs() < 1e-12);
}

#[test]
fn point_container_grows_by_one_point() {
    let mut points: Vec<Vector3<Double>> = Vec::new();
    assert_eq!(points.point_count(), 0);
    points.add_point(at(1.0, 2.0, 3.0));
    points.add_point(at(4.0, 5.0, 6.0));
    assert_eq!(points.point_count(), 2);
    assert_eq!(points[0], at(1.0, 2.0, 3.0));
    assert_eq!(points[1], at(4.0, 5.0, 6.0));
    points[0] = at(7.0, 8.0, 9.0);
    assert_eq!(points, vec![at(7.0, 8.0, 9.0), at(4.0, 5.0, 6.0)]);
}

struct Parabola;

impl Curve<Double> for Parabola {
    fn valid_spec(&self) -> bool {
        true
    }

    fn defined_at(&self, _t: Double) -> bool {
        true
    }

    fn has_point(&self, t: Double, p: Vector3<Double>) -> bool {
        p == at(t.0, t.0 * t.0, 0.0)
    }

    fn get_point_mut(&self, t: Double, v: &mut Vector3<Double>) {
        *v = at(t.0, t.0 * t.0, 0.0);
    }

    fn valid(&self) -> bool {
        true
    }
}

#[test]
fn a_curve_of_ones_own_gets_the_derived_operations() {
    let curve = Parabola;
    assert_eq!(curve.get_point(Double(0.5)), at(0.5, 0.25, 0.0));
    assert_eq!(
        get_points(&curve, 4),
        vec![at(0.0, 0.0, 0.0), at(0.25, 0.0625, 0.0), at(0.5, 0.25, 0.0), at(0.75, 0.5625, 0.0)]
    );
    let chord = |a: f64, b: f64| ((b - a) * (b - a) + (b * b - a * a) * (b * b - a * a)).sqrt();
    assert_eq!(curve.get_length(2), Double(0.0 + chord(0.0, 0.5) + chord(0.5, 1.0)));
    let mut last = 0.0;
    for divisions in [2usize, 4, 8, 16, 32] {
        let length = curve.get_length(divisions).0;
        assert!(length > last);
        last = length;
    }
    assert!((last - 1.4789428575445975).abs() < 1e-3);
    let tangent = curve.get_tangent(Double(0.5), Double(0.25));
    let expected = at(0.5, 0.5, 0.0).normalize();
    assert_eq!(tangent, expected);
}
