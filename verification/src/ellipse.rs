//! Arcs of an ellipse.
//!
//! An arc lies in a plane of its own: it runs round the centre `(x, y)` of
//! that plane from a start angle to an end angle, and the plane is then
//! turned into place by the curve's orientation.
use vstd::prelude::*;
use crate::curve::Curve;
use crate::scalar::CurveScalar;
use crate::vector::{Quaternion, Vector3};

verus! {

/// The angle `delta` with `turns` full turns added, one after the other.
pub open spec fn turned_up<N: CurveScalar>(delta: N, turns: nat) -> N
    decreases turns,
{
    if turns == 0 {
        delta
    } else {
        turned_up(delta, (turns - 1) as nat).plus_spec(N::two_pi_spec())
    }
}

/// The angle `delta` with `turns` full turns taken off, one after the
/// other.
pub open spec fn turned_down<N: CurveScalar>(delta: N, turns: nat) -> N
    decreases turns,
{
    if turns == 0 {
        delta
    } else {
        turned_down(delta, (turns - 1) as nat).minus_spec(N::two_pi_spec())
    }
}

/// Whether `turns` is the least number of full turns that, added to
/// `delta`, give an angle not below zero.
pub open spec fn lifts_in<N: CurveScalar>(delta: N, turns: nat) -> bool {
    &&& !turned_up(delta, turns).less_spec(N::zero_spec())
    &&& forall|fewer: nat|
        fewer < turns ==> (#[trigger] turned_up(delta, fewer)).less_spec(N::zero_spec())
}

/// Whether `turns` is the least number of full turns that, taken off
/// `delta`, give an angle not above the full turn.
pub open spec fn lowers_in<N: CurveScalar>(delta: N, turns: nat) -> bool {
    &&& !N::two_pi_spec().less_spec(turned_down(delta, turns))
    &&& forall|fewer: nat|
        fewer < turns ==> N::two_pi_spec().less_spec(#[trigger] turned_down(delta, fewer))
}

/// Whether adding full turns to `delta` ever gives an angle not below zero.
pub open spec fn can_lift<N: CurveScalar>(delta: N) -> bool {
    exists|turns: nat| !(#[trigger] turned_up(delta, turns)).less_spec(N::zero_spec())
}

/// Whether taking full turns off `delta` ever gives an angle not above the
/// full turn.
pub open spec fn can_lower<N: CurveScalar>(delta: N) -> bool {
    exists|turns: nat| !N::two_pi_spec().less_spec(#[trigger] turned_down(delta, turns))
}

/// The first of `delta`, `delta + 2 pi`, `delta + 2 pi + 2 pi`, ... that is
/// not below zero.
pub open spec fn lifted<N: CurveScalar>(delta: N) -> N {
    turned_up(delta, choose|turns: nat| lifts_in(delta, turns))
}

/// The first of `delta`, `delta - 2 pi`, `delta - 2 pi - 2 pi`, ... that is
/// not above the full turn.
pub open spec fn lowered<N: CurveScalar>(delta: N) -> N {
    turned_down(delta, choose|turns: nat| lowers_in(delta, turns))
}

/// Whether `delta` can be brought into the range from zero to the full
/// turn: by adding full turns while it is below zero, then taking full
/// turns off while it is above the full turn. An angle so far from zero
/// that a full turn no longer changes it cannot.
pub open spec fn normalizes<N: CurveScalar>(delta: N) -> bool {
    can_lift(delta) && can_lower(lifted(delta))
}

/// The angle `delta` brought into the range from zero to the full turn.
pub open spec fn normalized<N: CurveScalar>(delta: N) -> N {
    lowered(lifted(delta))
}

/// Whether `delta` is brought into range by no more than `max_turns` full
/// turns, those added and those taken off counted together.
pub open spec fn normalizes_within<N: CurveScalar>(delta: N, max_turns: nat) -> bool {
    exists|up: nat, down: nat|
        #![trigger lifts_in(delta, up), lowers_in(turned_up(delta, up), down)]
        lifts_in(delta, up) && lowers_in(turned_up(delta, up), down) && up + down <= max_turns
}

/// Only one number of turns is the least that lifts `delta`.
pub proof fn lemma_lifts_once<N: CurveScalar>(delta: N, a: nat, b: nat)
    requires
        lifts_in(delta, a),
        lifts_in(delta, b),
    ensures
        a == b,
{
    if a < b {
        assert(turned_up(delta, a).less_spec(N::zero_spec()));
    }
    if b < a {
        assert(turned_up(delta, b).less_spec(N::zero_spec()));
    }
}

/// Only one number of turns is the least that lowers `delta`.
pub proof fn lemma_lowers_once<N: CurveScalar>(delta: N, a: nat, b: nat)
    requires
        lowers_in(delta, a),
        lowers_in(delta, b),
    ensures
        a == b,
{
    if a < b {
        assert(N::two_pi_spec().less_spec(turned_down(delta, a)));
    }
    if b < a {
        assert(N::two_pi_spec().less_spec(turned_down(delta, b)));
    }
}

/// An angle brought into range within some number of turns can be brought
/// into range.
pub proof fn lemma_within_normalizes<N: CurveScalar>(delta: N, max_turns: nat)
    requires
        normalizes_within(delta, max_turns),
    ensures
        normalizes(delta),
{
    let (up, down) = choose|up: nat, down: nat|
        #![trigger lifts_in(delta, up), lowers_in(turned_up(delta, up), down)]
        lifts_in(delta, up) && lowers_in(turned_up(delta, up), down) && up + down <= max_turns;
    lemma_lifts_once(delta, up, choose|turns: nat| lifts_in(delta, turns));
    assert(!turned_up(delta, up).less_spec(N::zero_spec()));
    assert(!N::two_pi_spec().less_spec(turned_down(lifted(delta), down)));
}

/// Adds full turns to `delta` while it is below zero.
pub fn lift<N: CurveScalar>(delta: N) -> (r: N)
    requires
        can_lift(delta),
    ensures
        r == lifted(delta),
        !r.less_spec(N::zero_spec()),
{
    let ghost bound = choose|turns: nat| !(#[trigger] turned_up(delta, turns)).less_spec(N::zero_spec());
    let ghost mut done: nat = 0;
    let mut angle = delta;
    while angle.less(N::zero())
        invariant
            angle == turned_up(delta, done),
            forall|fewer: nat|
                fewer < done ==> (#[trigger] turned_up(delta, fewer)).less_spec(N::zero_spec()),
            !turned_up(delta, bound).less_spec(N::zero_spec()),
            done <= bound,
        decreases bound - done,
    {
        angle = angle.plus(N::two_pi());
        proof {
            done = done + 1;
        }
    }
    proof {
        assert(lifts_in(delta, done));
        lemma_lifts_once(delta, done, choose|turns: nat| lifts_in(delta, turns));
    }
    angle
}

/// Takes full turns off `delta` while it is above the full turn.
pub fn lower<N: CurveScalar>(delta: N) -> (r: N)
    requires
        can_lower(delta),
    ensures
        r == lowered(delta),
        !N::two_pi_spec().less_spec(r),
{
    let ghost bound = choose|turns: nat| !N::two_pi_spec().less_spec(#[trigger] turned_down(delta, turns));
    let ghost mut done: nat = 0;
    let mut angle = delta;
    while N::two_pi().less(angle)
        invariant
            angle == turned_down(delta, done),
            forall|fewer: nat|
                fewer < done ==> N::two_pi_spec().less_spec(#[trigger] turned_down(delta, fewer)),
            !N::two_pi_spec().less_spec(turned_down(delta, bound)),
            done <= bound,
        decreases bound - done,
    {
        angle = angle.minus(N::two_pi());
        proof {
            done = done + 1;
        }
    }
    proof {
        assert(lowers_in(delta, done));
        lemma_lowers_once(delta, done, choose|turns: nat| lowers_in(delta, turns));
    }
    angle
}

/// Brings `delta` into the range from zero to the full turn.
pub fn normalize_angle<N: CurveScalar>(delta: N) -> (r: N)
    requires
        normalizes(delta),
    ensures
        r == normalized(delta),
        !N::two_pi_spec().less_spec(r),
{
    lower(lift(delta))
}

/// Brings `delta` into the range from zero to the full turn where no more
/// than `max_turns` full turns do so, and gives up where they do not.
pub fn normalize_angle_within<N: CurveScalar>(delta: N, max_turns: usize) -> (r: Option<N>)
    ensures
        match r {
            Some(angle) => normalizes_within(delta, max_turns as nat) && normalizes(delta) && angle
                == normalized(delta),
            None => !normalizes_within(delta, max_turns as nat),
        },
{
    let ghost mut up: nat = 0;
    let mut left: usize = max_turns;
    let mut angle = delta;
    while angle.less(N::zero())
        invariant
            angle == turned_up(delta, up),
            forall|fewer: nat|
                fewer < up ==> (#[trigger] turned_up(delta, fewer)).less_spec(N::zero_spec()),
            up + left == max_turns,
        decreases left,
    {
        if left == 0 {
            proof {
                assert forall|u: nat, d: nat|
                    #![trigger lifts_in(delta, u), lowers_in(turned_up(delta, u), d)]
                    lifts_in(delta, u) && lowers_in(turned_up(delta, u), d) implies u + d
                    > max_turns by {
                    if u <= up {
                        assert(turned_up(delta, u).less_spec(N::zero_spec()));
                    }
                }
            }
            return None;
        }
        left = left - 1;
        angle = angle.plus(N::two_pi());
        proof {
            up = up + 1;
        }
    }
    assert(lifts_in(delta, up));
    let ghost from = angle;
    let ghost mut down: nat = 0;
    while N::two_pi().less(angle)
        invariant
            lifts_in(delta, up),
            from == turned_up(delta, up),
            angle == turned_down(from, down),
            forall|fewer: nat|
                fewer < down ==> N::two_pi_spec().less_spec(#[trigger] turned_down(from, fewer)),
            up + down + left == max_turns,
        decreases left,
    {
        if left == 0 {
            proof {
                assert forall|u: nat, d: nat|
                    #![trigger lifts_in(delta, u), lowers_in(turned_up(delta, u), d)]
                    lifts_in(delta, u) && lowers_in(turned_up(delta, u), d) implies u + d
                    > max_turns by {
                    lemma_lifts_once(delta, u, up);
                    if d <= down {
                        assert(N::two_pi_spec().less_spec(turned_down(from, d)));
                    }
                }
            }
            return None;
        }
        left = left - 1;
        angle = angle.minus(N::two_pi());
        proof {
            down = down + 1;
        }
    }
    proof {
        assert(lowers_in(from, down));
        assert(lifts_in(delta, up) && lowers_in(turned_up(delta, up), down) && up + down
            <= max_turns);
        lemma_within_normalizes(delta, max_turns as nat);
        lemma_lifts_once(delta, up, choose|turns: nat| lifts_in(delta, turns));
        lemma_lowers_once(from, down, choose|turns: nat| lowers_in(from, turns));
    }
    Some(angle)
}

/// The angle an arc sweeps, from the difference `delta` of its end angle
/// and start angle once `in_range` is that difference brought into range.
///
/// An angle in range below epsilon stands for no arc at all where the
/// difference itself was below epsilon, and for the whole ellipse where it
/// was not. A clockwise arc with a difference not below epsilon sweeps the
/// other way round: a full turn less, which for the whole ellipse is the
/// full turn negated.
pub open spec fn settled_sweep<N: CurveScalar>(delta: N, in_range: N, clockwise: bool) -> N {
    let same_points = delta.less_spec(N::epsilon_spec());
    let counter = if in_range.less_spec(N::epsilon_spec()) {
        if same_points {
            N::zero_spec()
        } else {
            N::two_pi_spec()
        }
    } else {
        in_range
    };
    if clockwise && !same_points {
        if counter.equal_spec(N::two_pi_spec()) {
            N::two_pi_spec().negated_spec()
        } else {
            counter.minus_spec(N::two_pi_spec())
        }
    } else {
        counter
    }
}

/// Settles the sweep of an arc from its angle difference and that
/// difference brought into range.
pub fn settle_sweep<N: CurveScalar>(delta: N, in_range: N, clockwise: bool) -> (r: N)
    ensures
        r == settled_sweep(delta, in_range, clockwise),
{
    let same_points = delta.less(N::epsilon());
    let mut sweep = in_range;
    if sweep.less(N::epsilon()) {
        sweep = if same_points {
            N::zero()
        } else {
            N::two_pi()
        };
    }
    if clockwise && !same_points {
        sweep = if sweep.equal(N::two_pi()) {
            N::two_pi().negated()
        } else {
            sweep.minus(N::two_pi())
        };
    }
    sweep
}

/// The arc of the ellipse round `(x, y)` with the radii `x_radius` and
/// `y_radius` that runs from `start_angle` to `end_angle`, counterclockwise
/// unless `clockwise` is set, in the plane that `rotation` turns the
/// xy-plane into.
#[derive(Clone, Copy, Debug, PartialEq)]
pub struct EllipseCurve<N: CurveScalar> {
    pub x: N,
    pub y: N,
    pub x_radius: N,
    pub y_radius: N,
    pub start_angle: N,
    pub end_angle: N,
    pub clockwise: bool,
    pub rotation: Quaternion<N>,
}

impl<N: CurveScalar> EllipseCurve<N> {
    /// The unit circle round the origin of the xy-plane, once round
    /// counterclockwise from angle zero.
    pub open spec fn default_spec() -> Self {
        EllipseCurve {
            x: N::zero_spec(),
            y: N::zero_spec(),
            x_radius: N::one_spec(),
            y_radius: N::one_spec(),
            start_angle: N::zero_spec(),
            end_angle: N::two_pi_spec(),
            clockwise: false,
            rotation: Quaternion::identity_spec(),
        }
    }

    /// The end angle less the start angle.
    pub open spec fn delta_spec(&self) -> N {
        self.end_angle.minus_spec(self.start_angle)
    }

    /// The angle the arc sweeps from its start, negative for a clockwise
    /// arc.
    pub open spec fn sweep_spec(&self) -> N {
        settled_sweep(self.delta_spec(), normalized(self.delta_spec()), self.clockwise)
    }

    /// The angle at `t`: the start angle plus `t` times the sweep.
    pub open spec fn angle_spec(&self, t: N) -> N {
        self.start_angle.plus_spec(t.times_spec(self.sweep_spec()))
    }

    /// The point of the arc at an angle with the cosine `cos` and the sine
    /// `sin`: `(x + x_radius cos, y + y_radius sin, 0)`, turned by the
    /// curve's orientation.
    pub open spec fn place_spec(&self, cos: N, sin: N) -> Vector3<N> {
        self.rotation.transform_vector_spec(
            Vector3 {
                x: self.x.plus_spec(self.x_radius.times_spec(cos)),
                y: self.y.plus_spec(self.y_radius.times_spec(sin)),
                z: N::zero_spec(),
            },
        )
    }

    /// The sweep of the arc.
    pub fn sweep(&self) -> (r: N)
        requires
            normalizes(self.delta_spec()),
        ensures
            r == self.sweep_spec(),
    {
        let delta = self.end_angle.minus(self.start_angle);
        settle_sweep(delta, normalize_angle(delta), self.clockwise)
    }

    /// The sweep of the arc where its angles are within `max_turns` full
    /// turns of each other, `None` where they are further apart. A caller
    /// that gets `Some` may evaluate the arc.
    pub fn sweep_within(&self, max_turns: usize) -> (r: Option<N>)
        ensures
            match r {
                Some(sweep) => normalizes(self.delta_spec()) && sweep == self.sweep_spec(),
                None => !normalizes_within(self.delta_spec(), max_turns as nat),
            },
    {
        let delta = self.end_angle.minus(self.start_angle);
        match normalize_angle_within(delta, max_turns) {
            Some(in_range) => Some(settle_sweep(delta, in_range, self.clockwise)),
            None => None,
        }
    }

    /// Places the point whose angle has the cosine `cos` and the sine
    /// `sin`.
    pub fn place(&self, cos: N, sin: N) -> (p: Vector3<N>)
        ensures
            p == self.place_spec(cos, sin),
    {
        let x = self.x.plus(self.x_radius.times(cos));
        let y = self.y.plus(self.y_radius.times(sin));
        self.rotation.transform_vector(&Vector3::new(x, y, N::zero()))
    }
}

impl<N: CurveScalar> Default for EllipseCurve<N> {
    fn default() -> (r: Self)
        ensures
            r == Self::default_spec(),
    {
        EllipseCurve {
            x: N::zero(),
            y: N::zero(),
            x_radius: N::one(),
            y_radius: N::one(),
            start_angle: N::zero(),
            end_angle: N::two_pi(),
            clockwise: false,
            rotation: Quaternion::identity(),
        }
    }
}

impl<N: CurveScalar> Curve<N> for EllipseCurve<N> {
    /// An ellipse needs two radii above zero.
    open spec fn valid_spec(&self) -> bool {
        N::zero_spec().less_spec(self.x_radius) && N::zero_spec().less_spec(self.y_radius)
    }

    /// An arc can be evaluated, at every parameter, where the difference of
    /// its angles can be brought into range.
    open spec fn defined_at(&self, t: N) -> bool {
        normalizes(self.delta_spec())
    }

    /// The positions at `t` are the points placed for each cosine and sine
    /// that the scalar may give for the angle at `t`.
    open spec fn has_point(&self, t: N, p: Vector3<N>) -> bool {
        exists|cos: N, sin: N|
            #![trigger self.place_spec(cos, sin)]
            self.angle_spec(t).has_cos(cos) && self.angle_spec(t).has_sin(sin) && p
                == self.place_spec(cos, sin)
    }

    fn get_point_mut(&self, t: N, v: &mut Vector3<N>) {
        let angle = self.start_angle.plus(t.times(self.sweep()));
        *v = self.place(angle.cos(), angle.sin());
    }

    fn valid(&self) -> (b: bool)
        ensures
            b == (N::zero_spec().less_spec(self.x_radius) && N::zero_spec().less_spec(
                self.y_radius,
            )),
    {
        N::zero().less(self.x_radius) && N::zero().less(self.y_radius)
    }
}

} // verus!
