//! The laws of the spirograph, proved once and for all.
//!
//! The two models — the frame-by-frame kinematic integration and the
//! closed-form hypotrochoid — trace the same curve: `corresponds` names the
//! exact relation between their states, and the lemmas here show that it
//! holds at the start, that stepping both models preserves it, and that
//! corresponding states put the pen in exactly the same place.  Further
//! lemmas pin down the pen for the edge offsets (at the wheel centre for
//! offset zero, on the rim for offset one, circling the origin when the
//! wheel fills the outer circle) and the periodicity of the roll-phase
//! integration.

use vstd::arithmetic::div_mod::{
    lemma_fundamental_div_mod, lemma_mod_division_less_than_divisor, lemma_mod_multiples_vanish,
    lemma_small_mod,
};
use vstd::prelude::*;

use crate::frac::{frac_eq, FracV};
use crate::geometry::c_units_v;
use crate::model::{step_rel, Model};
use crate::spiro::Spiro;
use crate::wheel::{roll_after, wheel_modulus};
use crate::TURN_MDEG;

verus! {

/// Taking the remainder first does not change a sum's remainder.
pub proof fn lemma_mod_then_add(x: int, y: int, m: int)
    requires
        1 <= m,
    ensures
        ((x % m) + y) % m == (x + y) % m,
{
    lemma_fundamental_div_mod(x, m);
    lemma_mod_multiples_vanish(x / m, (x % m) + y, m);
}

/// Taking the remainder first does not change a difference's remainder.
pub proof fn lemma_mod_then_sub(x: int, y: int, m: int)
    requires
        1 <= m,
    ensures
        ((x % m) - y) % m == (x - y) % m,
{
    lemma_fundamental_div_mod(x, m);
    lemma_mod_multiples_vanish(x / m, (x % m) - y, m);
}

/// How one frame relates a closed-form state to the next: the elapsed angle
/// grows by the fixed step and everything else stands still.
pub open spec fn spiro_step_rel(pre: Spiro, post: Spiro) -> bool {
    &&& post.theta as int == pre.theta as int + pre.delta_theta as int
    &&& post.outer_radius == pre.outer_radius
    &&& post.wheel_radius == pre.wheel_radius
    &&& post.pen_offset == pre.pen_offset
    &&& post.delta_theta == pre.delta_theta
}

/// A kinematic state and a closed-form state describe the same spirograph at
/// the same elapsed angle: same radii, pen offset and step; the kinematic
/// drive angle is the elapsed angle wrapped into one turn; and the
/// kinematic roll phase is exactly the closed form's wheel angle
/// `-theta * R / r`, scaled by the wheel radius and wrapped into one scaled
/// turn.
pub open spec fn corresponds(m: Model, s: Spiro) -> bool {
    &&& m.wf()
    &&& s.wf()
    &&& m.outer.radius == s.outer_radius
    &&& m.wheel.geometry.radius == s.wheel_radius
    &&& m.wheel.pen_offset == s.pen_offset
    &&& m.delta_theta == s.delta_theta
    &&& m.theta as int == (s.theta as int) % (TURN_MDEG as int)
    &&& m.wheel.roll_scaled as int == (0 - (s.theta as int) * (s.outer_radius as int)) % (
    (TURN_MDEG as int) * (s.wheel_radius as int))
}

/// At elapsed angle zero with roll phase zero, the two models correspond.
pub proof fn lemma_models_correspond_at_start(m: Model, s: Spiro)
    requires
        m.wf(),
        s.wf(),
        m.outer.radius == s.outer_radius,
        m.wheel.geometry.radius == s.wheel_radius,
        m.wheel.pen_offset == s.pen_offset,
        m.delta_theta == s.delta_theta,
        m.theta == 0,
        m.wheel.roll_scaled == 0,
        s.theta == 0,
    ensures
        corresponds(m, s),
{
    let t = TURN_MDEG as int;
    let w = s.wheel_radius as int;
    lemma_small_mod(0, t as nat);
    assert(t * w >= 1) by (nonlinear_arith)
        requires
            t >= 1,
            w >= 1,
    ;
    lemma_small_mod(0, (t * w) as nat);
    assert(0 - (s.theta as int) * (s.outer_radius as int) == 0) by (nonlinear_arith)
        requires
            s.theta as int == 0,
    ;
}

/// Stepping both models keeps them corresponding: this is the heart of the
/// agreement between the kinematic integration and the closed form, since
/// the exact roll phase `-theta * R / r` is reproduced step by step by the
/// rolling-contact subtraction.
pub proof fn lemma_correspondence_is_preserved(m1: Model, m2: Model, s1: Spiro, s2: Spiro)
    requires
        corresponds(m1, s1),
        step_rel(m1, m2),
        spiro_step_rel(s1, s2),
        m2.wf(),
    ensures
        corresponds(m2, s2),
{
    let t = TURN_MDEG as int;
    let w = s1.wheel_radius as int;
    let r = s1.outer_radius as int;
    let theta = s1.theta as int;
    let delta = s1.delta_theta as int;
    let m = t * w;
    assert(t * w >= 1) by (nonlinear_arith)
        requires
            t >= 1,
            w >= 1,
    ;

    // the wrapped drive angle advances with the elapsed angle
    lemma_mod_then_add(theta, delta, t);

    // the roll phase advances with the closed form's wheel angle
    assert(c_units_v(r) == r);
    assert(c_units_v(w) == w);
    assert(wheel_modulus(w) == m);
    lemma_mod_then_sub(0 - theta * r, delta * r, m);
    assert((theta + delta) * r == theta * r + delta * r) by (nonlinear_arith);
    assert(m2.wheel.roll_scaled as int == (0 - (s2.theta as int) * r) % m);
}

/// Corresponding states put the pen in exactly the same place: the two
/// models agree, term for term, on the traced point.
pub proof fn lemma_pen_positions_agree(m: Model, s: Spiro)
    requires
        corresponds(m, s),
    ensures
        m.wheel.pen_view() == s.pen_view(),
{
    assert(c_units_v(s.wheel_radius as int) == s.wheel_radius as int);
    assert(m.wheel.pen_view() =~= s.pen_view());
}

/// Whole runs of the two models stay together: from corresponding starts,
/// any number of frames stepped in both models leaves every pair of states
/// corresponding, frame by frame.
pub proof fn lemma_runs_correspond(models: Seq<Model>, spiros: Seq<Spiro>, i: int)
    requires
        models.len() == spiros.len(),
        models.len() >= 1,
        corresponds(models[0], spiros[0]),
        forall|j: int|
            0 <= j < models.len() - 1 ==> {
                &&& step_rel(#[trigger] models[j], models[j + 1])
                &&& models[j + 1].wf()
                &&& spiro_step_rel(spiros[j], spiros[j + 1])
            },
        0 <= i < models.len(),
    ensures
        corresponds(models[i], spiros[i]),
        models[i].wheel.pen_view() == spiros[i].pen_view(),
    decreases i,
{
    if i > 0 {
        lemma_runs_correspond(models, spiros, i - 1);
        lemma_correspondence_is_preserved(models[i - 1], models[i], spiros[i - 1], spiros[i]);
    }
    lemma_pen_positions_agree(models[i], spiros[i]);
}

/// The traced point is periodic: advancing the elapsed angle by
/// `R / r` full revolutions — the outer circumference divided by the wheel
/// circumference, here the integer `k` — returns the pen to exactly the
/// same place.
pub proof fn lemma_pen_trace_periodic(s1: Spiro, s2: Spiro, k: int)
    requires
        s1.wf(),
        s2.wf(),
        s2.outer_radius == s1.outer_radius,
        s2.wheel_radius == s1.wheel_radius,
        s2.pen_offset == s1.pen_offset,
        s1.outer_radius as int == k * (s1.wheel_radius as int),
        s2.theta as int == s1.theta as int + k * (TURN_MDEG as int),
    ensures
        s2.pen_view() == s1.pen_view(),
{
    let t = TURN_MDEG as int;
    let w = s1.wheel_radius as int;
    let r = s1.outer_radius as int;
    let theta = s1.theta as int;
    let m = t * w;
    assert(t * w >= 1) by (nonlinear_arith)
        requires
            t >= 1,
            w >= 1,
    ;

    // the wheel centre's angle wraps back to itself
    lemma_mod_multiples_vanish(k, theta, t);
    assert(t * k + theta == theta + k * t) by (nonlinear_arith);

    // the wheel's own angle moves by a whole number of turns
    assert((theta + k * t) * r == theta * r + m * (k * k)) by (nonlinear_arith)
        requires
            r == k * w,
            m == t * w,
    ;
    lemma_mod_multiples_vanish(-(k * k), 0 - theta * r, m);
    assert(m * (-(k * k)) + (0 - theta * r) == 0 - (theta * r + m * (k * k))) by (nonlinear_arith);
    assert(s2.pen_view() =~= s1.pen_view());
}

/// With the pen at the wheel's centre (offset zero) the spoke term
/// vanishes: the pen rides the wheel centre, at distance `R - r` from the
/// origin whatever the elapsed angle.
pub proof fn lemma_pen_rides_centre_when_offset_zero(s: Spiro)
    requires
        s.wf(),
        s.pen_offset.num == 0,
    ensures
        s.pen_view().spoke.mag.num == 0,
        s.pen_view().centre.mag == (FracV {
            num: s.outer_radius - s.wheel_radius,
            den: 1,
        }),
{
    assert(0 * (s.wheel_radius as int) == 0) by (nonlinear_arith);
}

/// With the pen offset one, the pen sits exactly on the wheel's rim: the
/// spoke's length equals the wheel radius, so the trace is the classic
/// hypotrochoid.
pub proof fn lemma_pen_on_rim_when_offset_one(s: Spiro)
    requires
        s.wf(),
        s.pen_offset.num == s.pen_offset.den,
    ensures
        frac_eq(s.pen_view().spoke.mag, FracV { num: s.wheel_radius as int, den: 1 }),
{
    let p = s.pen_offset.num as int;
    let w = s.wheel_radius as int;
    assert((p * w) * 1 == w * p) by (nonlinear_arith);
}

/// When the wheel fills the whole outer circle, the circle its centre
/// travels on shrinks to the origin and the pen stays at distance
/// `pen_offset * R` from the origin: it traces a circle of that radius.
pub proof fn lemma_pen_circles_origin_when_wheel_fills(s: Spiro)
    requires
        s.wf(),
        s.wheel_radius == s.outer_radius,
    ensures
        s.pen_view().centre.mag.num == 0,
        frac_eq(
            s.pen_view().spoke.mag,
            FracV { num: s.pen_offset.num * (s.outer_radius as int), den: s.pen_offset.den as int },
        ),
{
}

/// The total of a run of rolled distances.
pub open spec fn total_distance(dists: Seq<int>) -> int
    decreases dists.len(),
{
    if dists.len() == 0 {
        0
    } else {
        dists[0] + total_distance(dists.drop_first())
    }
}

/// The roll phase after rolling a run of distances one after another.
pub open spec fn roll_run(roll: int, dists: Seq<int>, m: int) -> int
    decreases dists.len(),
{
    if dists.len() == 0 {
        roll
    } else {
        roll_run(roll_after(roll, dists[0], m), dists.drop_first(), m)
    }
}

/// Integrating a run of distances step by step lands exactly where rolling
/// their total in one go does: the frame-by-frame integration accumulates
/// no error.
pub proof fn lemma_roll_run_is_one_roll(roll: int, dists: Seq<int>, m: int)
    requires
        1 <= m,
        0 <= roll < m,
    ensures
        roll_run(roll, dists, m) == roll_after(roll, total_distance(dists), m),
    decreases dists.len(),
{
    if dists.len() == 0 {
        lemma_small_mod(roll as nat, m as nat);
    } else {
        let first = roll_after(roll, dists[0], m);
        lemma_mod_division_less_than_divisor(roll - dists[0], m);
        lemma_roll_run_is_one_roll(first, dists.drop_first(), m);
        lemma_mod_then_sub(roll - dists[0], total_distance(dists.drop_first()), m);
    }
}

/// Exactly the rolled distances that are whole numbers of scaled turns
/// return the roll phase to its start — no shorter distance does.
pub proof fn lemma_roll_returns_exactly_on_whole_turns(roll: int, dist: int, m: int)
    requires
        1 <= m,
        0 <= roll < m,
    ensures
        roll_after(roll, dist, m) == roll <==> dist % m == 0,
{
    if dist % m == 0 {
        lemma_fundamental_div_mod(dist, m);
        lemma_mod_multiples_vanish(-(dist / m), roll, m);
        assert(m * (-(dist / m)) + roll == roll - m * (dist / m)) by (nonlinear_arith);
        lemma_small_mod(roll as nat, m as nat);
    }
    if roll_after(roll, dist, m) == roll {
        lemma_fundamental_div_mod(roll - dist, m);
        let q = (roll - dist) / m;
        assert(m * (-q) == -(m * q)) by (nonlinear_arith);
        assert(dist == m * (-q));
        lemma_mod_multiples_vanish(-q, 0, m);
        lemma_small_mod(0, m as nat);
    }
}

/// The roll-phase integration is periodic, with period the outer
/// circumference over the wheel circumference (the integer `k = R / r`)
/// in revolutions of the drive angle: a run of frames whose drive-angle
/// steps total `k` turns rolls a total distance of `k` turns times the
/// outer radius, and that returns the roll phase exactly to its start.
pub proof fn lemma_roll_integration_periodic(
    roll: int,
    dists: Seq<int>,
    outer_radius: int,
    k: int,
    w: int,
)
    requires
        1 <= w,
        outer_radius == k * w,
        0 <= roll < (TURN_MDEG as int) * w,
        total_distance(dists) == k * (TURN_MDEG as int) * outer_radius,
    ensures
        roll_run(roll, dists, (TURN_MDEG as int) * w) == roll,
{
    let t = TURN_MDEG as int;
    let m = t * w;
    assert(t * w >= 1) by (nonlinear_arith)
        requires
            t >= 1,
            w >= 1,
    ;
    lemma_roll_run_is_one_roll(roll, dists, m);
    assert(k * t * outer_radius == m * (k * k)) by (nonlinear_arith)
        requires
            outer_radius == k * w,
            m == t * w,
    ;
    lemma_mod_multiples_vanish(-(k * k), roll, m);
    assert(m * (-(k * k)) + roll == roll - m * (k * k)) by (nonlinear_arith);
    lemma_small_mod(roll as nat, m as nat);
}

} // verus!
