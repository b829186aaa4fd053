//! The closed-form hypotrochoid model.
//!
//! Instead of integrating the rolling contact frame by frame, the pen's
//! position is computed directly from the elapsed angle `theta`: the wheel's
//! centre sits at `(R - r) * (cos theta, sin theta)`, the wheel itself has
//! turned `-theta * R / r`, and the pen sits `pen_offset` of the way from
//! the centre towards the rim point at that angle.  Because nothing is
//! accumulated, no integration error can build up over a long run.

use vstd::arithmetic::div_mod::lemma_mod_division_less_than_divisor;
use vstd::prelude::*;

use crate::frac::{Frac, FracV, PenOffset};
use crate::geometry::{PenPoint, PointV, PolarV, PolarVec};
use crate::wheel::lemma_mod_sub_form;
use crate::TURN_MDEG;

verus! {

/// The closed-form spirograph: outer radius `R`, wheel radius `r`, the pen
/// offset, the elapsed angle `theta` in milli-degrees (never wrapped), and
/// the fixed per-frame step.
#[derive(Clone, Copy, PartialEq, Eq, Structural, Debug)]
pub struct Spiro {
    pub outer_radius: u32,
    pub wheel_radius: u32,
    pub pen_offset: PenOffset,
    pub theta: u64,
    pub delta_theta: u32,
}

impl Spiro {
    pub open spec fn wf(self) -> bool {
        &&& 1 <= self.wheel_radius
        &&& self.wheel_radius <= self.outer_radius
        &&& self.pen_offset.wf()
    }

    pub fn new(
        outer_radius: u32,
        wheel_radius: u32,
        pen_offset: PenOffset,
        initial_theta: u64,
        delta_theta: u32,
    ) -> (s: Spiro)
        requires
            1 <= wheel_radius <= outer_radius,
            pen_offset.wf(),
        ensures
            s.outer_radius == outer_radius,
            s.wheel_radius == wheel_radius,
            s.pen_offset == pen_offset,
            s.theta == initial_theta,
            s.delta_theta == delta_theta,
            s.wf(),
    {
        Spiro { outer_radius, wheel_radius, pen_offset, theta: initial_theta, delta_theta }
    }

    /// Advance the elapsed angle by one frame step.
    pub fn step(&mut self)
        requires
            old(self).wf(),
            old(self).theta + old(self).delta_theta <= u64::MAX,
        ensures
            final(self).wf(),
            final(self).theta == old(self).theta + old(self).delta_theta,
            final(self).outer_radius == old(self).outer_radius,
            final(self).wheel_radius == old(self).wheel_radius,
            final(self).pen_offset == old(self).pen_offset,
            final(self).delta_theta == old(self).delta_theta,
    {
        self.theta = self.theta + (self.delta_theta as u64);
    }

    /// Where the pen is, straight from the closed form: the wheel's centre
    /// is `R - r` from the origin at angle `theta` (wrapped into one turn),
    /// and the spoke of length `pen_offset * r` points at the wheel's own
    /// angle `-theta * R / r`, kept scaled by `r` as an exact integer
    /// modulo one scaled turn.
    pub open spec fn pen_view(self) -> PointV {
        PointV {
            centre: PolarV {
                mag: FracV { num: self.outer_radius - self.wheel_radius, den: 1 },
                angle: FracV { num: (self.theta as int) % (TURN_MDEG as int), den: 1 },
            },
            spoke: PolarV {
                mag: FracV {
                    num: self.pen_offset.num * self.wheel_radius,
                    den: self.pen_offset.den as int,
                },
                angle: FracV {
                    num: (0 - (self.theta as int) * (self.outer_radius as int)) % (
                    (TURN_MDEG as int) * (self.wheel_radius as int)),
                    den: self.wheel_radius as int,
                },
            },
        }
    }

    /// The pen's current position.
    pub fn pen_location(&self) -> (p: PenPoint)
        requires
            self.wf(),
        ensures
            p@ == self.pen_view(),
            p.wf(),
    {
        let m: u128 = (TURN_MDEG as u128) * (self.wheel_radius as u128);
        proof {
            let w = self.wheel_radius as int;
            assert(m as int >= 360000 && m as int <= 360000 * 0xffff_ffff) by (nonlinear_arith)
                requires
                    m as int == 360000 * w,
                    1 <= w <= 0xffff_ffff,
            ;
            let t = self.theta as int;
            let r = self.outer_radius as int;
            assert(t * r <= 0xffff_ffff_ffff_ffff * 0xffff_ffff) by (nonlinear_arith)
                requires
                    0 <= t <= 0xffff_ffff_ffff_ffff,
                    0 <= r <= 0xffff_ffff,
            ;
            assert(t * r >= 0) by (nonlinear_arith)
                requires
                    t >= 0,
                    r >= 0,
            ;
        }
        let prod: u128 = (self.theta as u128) * (self.outer_radius as u128);
        proof {
            lemma_mod_division_less_than_divisor(prod as int, m as int);
        }
        let rem: u128 = prod % m;
        let sp: u128 = (m - rem) % m;
        proof {
            lemma_mod_sub_form(0, prod as int, m as int);
            lemma_mod_division_less_than_divisor((m - rem) as int, m as int);
            let a = self.pen_offset.num as int;
            let b = self.wheel_radius as int;
            assert(-0x8000_0000 * 0xffff_ffff <= a * b <= 0x7fff_ffff * 0xffff_ffff)
                by (nonlinear_arith)
                requires
                    -0x8000_0000 <= a <= 0x7fff_ffff,
                    0 <= b <= 0xffff_ffff,
            ;
        }
        let centre_angle: u64 = self.theta % (TURN_MDEG as u64);
        let mag_num: i64 = (self.pen_offset.num as i64) * (self.wheel_radius as i64);
        PenPoint {
            centre: PolarVec {
                mag: Frac::whole((self.outer_radius - self.wheel_radius) as i64),
                angle: Frac::whole(centre_angle as i64),
            },
            spoke: PolarVec {
                mag: Frac::new(mag_num, self.pen_offset.den as u64),
                angle: Frac::new(sp as i64, self.wheel_radius as u64),
            },
        }
    }

    /// Move the pen along the spoke.
    pub fn set_pen_offset(&mut self, pen_offset: PenOffset)
        requires
            old(self).wf(),
            pen_offset.wf(),
        ensures
            final(self).wf(),
            *final(self) == (Spiro { pen_offset, ..*old(self) }),
    {
        self.pen_offset = pen_offset;
    }
}

} // verus!
