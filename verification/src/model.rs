//! The kinematic model: the per-frame state and its advance.
//!
//! Each frame the drive angle `theta` grows by a fixed step and wraps at one
//! turn; the wheel's centre moves to the point of the inner guide circle at
//! `theta`, and the wheel rolls (without slipping, in the opposite sense)
//! through the arc its contact point travelled along the outer circle.  The
//! pen position after each frame is appended to the trail.

use vstd::arithmetic::div_mod::{
    lemma_mod_division_less_than_divisor, lemma_multiply_divide_lt, lemma_small_mod,
};
use vstd::prelude::*;

use crate::frac::{FracV, PenOffset};
use crate::geometry::{c_units_v, origin_v, Circle, PenPoint, PolarV, PolarVec};
use crate::wheel::{roll_after, wheel_modulus, Wheel};
use crate::TURN_MDEG;

verus! {

/// Build the three parts of a spirograph: the inner guide circle the wheel's
/// centre travels on, the fixed outer circle, and the wheel between them.
/// The wheel takes `ratio_num / ratio_den` of the outer radius (rounded so
/// that inner and wheel radius still sum exactly to the outer radius), and
/// its starting roll phase is wrapped into one scaled turn.
pub fn init_spiro(
    ratio_num: u32,
    ratio_den: u32,
    pen_offset: PenOffset,
    outer_radius: u32,
    initial_roll_scaled: u64,
    initial_theta_mdeg: u32,
) -> (parts: (Circle, Circle, Wheel))
    requires
        1 <= ratio_num <= ratio_den,
        1 <= outer_radius,
        pen_offset.wf(),
    ensures
        ({
            let (inner, outer, wheel) = parts;
            &&& inner.radius as int == (ratio_den - ratio_num) * outer_radius / (ratio_den as int)
            &&& inner.centre@ == origin_v()
            &&& outer.radius == outer_radius
            &&& outer.centre@ == origin_v()
            &&& wheel.geometry.radius == outer_radius - inner.radius
            &&& wheel.geometry.radius >= 1
            &&& wheel.geometry.centre@ == (PolarV {
                mag: FracV { num: inner.radius as int, den: 1 },
                angle: FracV { num: initial_theta_mdeg as int, den: 1 },
            })
            &&& wheel.pen_offset == pen_offset
            &&& wheel.roll_scaled as int == (initial_roll_scaled as int) % wheel_modulus(
                wheel.geometry.radius as int,
            )
            &&& inner.wf()
            &&& outer.wf()
            &&& wheel.wf()
        }),
{
    let outer = Circle::new(outer_radius);
    let diff: u32 = ratio_den - ratio_num;
    proof {
        let d = diff as int;
        let n = ratio_den as int;
        let r = outer_radius as int;
        assert(d * r < n * r && 0 <= d * r <= 0xffff_ffff * 0xffff_ffff) by (nonlinear_arith)
            requires
                0 <= d < n,
                1 <= r <= 0xffff_ffff,
                d <= 0xffff_ffff,
        ;
        lemma_multiply_divide_lt(d * r, n, r);
        lemma_mod_division_less_than_divisor(d * r, n);
    }
    let inner_radius: u32 = (((diff as u64) * (outer_radius as u64)) / (ratio_den as u64)) as u32;
    let inner = Circle::new(inner_radius);
    let wheel_radius: u32 = outer_radius - inner_radius;
    let location: PolarVec = inner.rim_vec(initial_theta_mdeg);
    proof {
        assert(c_units_v(wheel_radius as int) == wheel_radius as int);
    }
    let m: u64 = (TURN_MDEG as u64) * (wheel_radius as u64);
    proof {
        assert(m as int >= 360000) by (nonlinear_arith)
            requires
                m as int == 360000 * (wheel_radius as int),
                1 <= wheel_radius as int,
        ;
        lemma_mod_division_less_than_divisor(initial_roll_scaled as int, m as int);
    }
    let roll0: u64 = initial_roll_scaled % m;
    let wheel = Wheel::new(roll0, wheel_radius, location, pen_offset);
    (inner, outer, wheel)
}

/// The whole per-frame state of the kinematic spirograph.
pub struct Model {
    pub outer: Circle,
    pub inner: Circle,
    pub wheel: Wheel,
    pub theta: u32,
    pub delta_theta: u32,
    pub points: Vec<PenPoint>,
    pub first_frame: bool,
}

/// How one frame relates the state before to the state after: the drive
/// angle advances one step and wraps, the wheel's centre moves to the inner
/// circle's point at the new angle, the roll phase turns back by the arc the
/// contact point travelled along the outer circle, and the new pen position
/// is appended to the trail.
pub open spec fn step_rel(pre: Model, post: Model) -> bool {
    &&& post.outer == pre.outer
    &&& post.inner == pre.inner
    &&& post.delta_theta == pre.delta_theta
    &&& post.theta as int == (pre.theta as int + pre.delta_theta as int) % (TURN_MDEG as int)
    &&& post.wheel.geometry.radius == pre.wheel.geometry.radius
    &&& post.wheel.pen_offset == pre.wheel.pen_offset
    &&& post.wheel.geometry.centre@ == (PolarV {
        mag: FracV { num: pre.inner.radius as int, den: 1 },
        angle: FracV { num: post.theta as int, den: 1 },
    })
    &&& post.wheel.roll_scaled as int == roll_after(
        pre.wheel.roll_scaled as int,
        (pre.delta_theta as int) * c_units_v(pre.outer.radius as int),
        wheel_modulus(pre.wheel.geometry.radius as int),
    )
    &&& post.points@.len() == pre.points@.len() + 1
    &&& post.points@.drop_last() == pre.points@
    &&& post.points@.last()@ == post.wheel.pen_view()
    &&& post.first_frame == false
}

impl Model {
    pub open spec fn wf(self) -> bool {
        &&& self.outer.wf()
        &&& self.inner.wf()
        &&& self.wheel.wf()
        &&& self.outer.centre@ == origin_v()
        &&& self.inner.centre@ == origin_v()
        &&& self.inner.radius + self.wheel.geometry.radius == self.outer.radius
        &&& 1 <= self.wheel.geometry.radius
        &&& self.theta < TURN_MDEG
        &&& self.wheel.geometry.centre@ == (PolarV {
            mag: FracV { num: self.inner.radius as int, den: 1 },
            angle: FracV { num: self.theta as int, den: 1 },
        })
    }

    /// A fresh spirograph at drive angle zero, with an empty trail.
    pub fn new(
        ratio_num: u32,
        ratio_den: u32,
        pen_offset: PenOffset,
        outer_radius: u32,
        delta_theta: u32,
    ) -> (m: Model)
        requires
            1 <= ratio_num <= ratio_den,
            1 <= outer_radius,
            pen_offset.wf(),
        ensures
            m.wf(),
            m.theta == 0,
            m.delta_theta == delta_theta,
            m.outer.radius == outer_radius,
            m.inner.radius as int == (ratio_den - ratio_num) * outer_radius / (ratio_den as int),
            m.wheel.geometry.radius == outer_radius - m.inner.radius,
            m.wheel.pen_offset == pen_offset,
            m.wheel.roll_scaled == 0,
            m.points@ == Seq::<PenPoint>::empty(),
            m.first_frame == true,
    {
        let (inner, outer, wheel) = init_spiro(ratio_num, ratio_den, pen_offset, outer_radius, 0, 0);
        proof {
            lemma_small_mod(0, wheel_modulus(wheel.geometry.radius as int) as nat);
        }
        Model {
            outer,
            inner,
            wheel,
            theta: 0,
            delta_theta,
            points: Vec::new(),
            first_frame: true,
        }
    }

    /// Advance one frame.
    pub fn step(&mut self)
        requires
            old(self).wf(),
        ensures
            final(self).wf(),
            step_rel(*old(self), *final(self)),
    {
        proof {
            lemma_mod_division_less_than_divisor(
                self.theta as int + self.delta_theta as int,
                TURN_MDEG as int,
            );
        }
        let theta_new: u32 = (((self.theta as u64) + (self.delta_theta as u64)) % (
        TURN_MDEG as u64)) as u32;
        self.theta = theta_new;
        let c_out: u64 = self.outer.circumference_units() as u64;
        proof {
            assert((self.delta_theta as int) * (c_out as int) <= 0xffff_ffff * 0xffff_ffff)
                by (nonlinear_arith)
                requires
                    0 <= self.delta_theta as int <= 0xffff_ffff,
                    0 <= c_out as int <= 0xffff_ffff,
            ;
        }
        let distance: u64 = (self.delta_theta as u64) * c_out;
        let position: PolarVec = self.inner.rim_vec(theta_new);
        self.wheel.roll(distance, position);
        let pen: PenPoint = self.wheel.pen_location();
        self.points.push(pen);
        self.first_frame = false;
        proof {
            assert(self.points@.drop_last() =~= old(self).points@);
        }
    }

    /// The pen's current position.
    pub fn pen_location(&self) -> (p: PenPoint)
        requires
            self.wf(),
        ensures
            p@ == self.wheel.pen_view(),
            p.wf(),
    {
        self.wheel.pen_location()
    }

    /// Move the pen along the spoke; the live slider of the interface ends
    /// up here.
    pub fn set_pen_offset(&mut self, pen_offset: PenOffset)
        requires
            old(self).wf(),
            pen_offset.wf(),
        ensures
            final(self).wf(),
            final(self).wheel.pen_offset == pen_offset,
            final(self).wheel.geometry == old(self).wheel.geometry,
            final(self).wheel.roll_scaled == old(self).wheel.roll_scaled,
            final(self).theta == old(self).theta,
            final(self).points == old(self).points,
    {
        self.wheel.set_pen_offset(pen_offset);
    }
}

} // verus!
