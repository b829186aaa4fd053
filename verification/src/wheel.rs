//! The rolling wheel of the kinematic model.
//!
//! The wheel keeps its own rotation — the roll phase — scaled by its
//! circumference: the field `roll_scaled` holds `roll_phase * c` milli-degree
//! units, where `c` is the wheel's circumference in scaled length units.
//! Rolling a distance `d` (also in scaled units) turns the wheel by exactly
//! `d / c` milli-degrees against the direction of travel, so in scaled form
//! the integration is an exact integer subtraction modulo one scaled turn.

use vstd::arithmetic::div_mod::{
    lemma_fundamental_div_mod, lemma_mod_division_less_than_divisor, lemma_mod_multiples_vanish,
};
use vstd::prelude::*;

use crate::frac::{Frac, FracV, PenOffset};
use crate::geometry::{c_units_v, Circle, PenPoint, PointV, PolarV, PolarVec};
use crate::TURN_MDEG;

verus! {

/// One full turn of a wheel of the given radius, in scaled milli-degrees:
/// roll phases live in `[0, wheel_modulus)`.
pub open spec fn wheel_modulus(radius: int) -> int {
    (TURN_MDEG as int) * c_units_v(radius)
}

/// The roll phase after rolling a distance `dist`, starting from `roll`,
/// modulo one scaled turn `m`: rolling without slipping turns the wheel
/// against the direction of travel.
pub open spec fn roll_after(roll: int, dist: int, m: int) -> int
    recommends
        m >= 1,
{
    (roll - dist) % m
}

/// Subtracting modulo `m` can be carried out on non-negative machine
/// integers as `(a + (m - d % m)) % m`.
pub proof fn lemma_mod_sub_form(a: int, d: int, m: int)
    requires
        0 <= a,
        0 <= d,
        1 <= m,
    ensures
        (a - d) % m == (a + (m - d % m)) % m,
{
    lemma_fundamental_div_mod(d, m);
    let q = d / m;
    assert(m * (-(q + 1)) == -(m * q) - m) by (nonlinear_arith);
    assert(a - d == m * (-(q + 1)) + (a + (m - d % m)));
    lemma_mod_multiples_vanish(-(q + 1), a + (m - d % m), m);
}

/// The rolling wheel: its geometry (radius and current centre), the scaled
/// roll phase, and where the pen sits along the spoke.
#[derive(Clone, Copy, PartialEq, Eq, Structural, Debug)]
pub struct Wheel {
    pub roll_scaled: u64,
    pub geometry: Circle,
    pub pen_offset: PenOffset,
}

impl Wheel {
    pub open spec fn wf(self) -> bool {
        &&& self.geometry.wf()
        &&& self.pen_offset.wf()
        &&& (self.roll_scaled as int) < wheel_modulus(self.geometry.radius as int)
    }

    /// A wheel of the given radius at the given place, with its roll phase
    /// (scaled by the circumference) and pen offset.
    pub fn new(
        initial_roll_scaled: u64,
        radius: u32,
        location: PolarVec,
        pen_offset: PenOffset,
    ) -> (w: Wheel)
        requires
            location.wf(),
            pen_offset.wf(),
            (initial_roll_scaled as int) < wheel_modulus(radius as int),
        ensures
            w.roll_scaled == initial_roll_scaled,
            w.geometry.radius == radius,
            w.geometry.centre == location,
            w.pen_offset == pen_offset,
            w.wf(),
    {
        Wheel {
            roll_scaled: initial_roll_scaled,
            geometry: Circle::new_at(location, radius),
            pen_offset,
        }
    }

    /// Roll the wheel a distance `distance` (in scaled length units) so that
    /// its centre ends at `end`: the centre moves there and the roll phase
    /// turns back by exactly the rolled arc, modulo one turn.
    pub fn roll(&mut self, distance: u64, end: PolarVec)
        requires
            old(self).wf(),
            end.wf(),
        ensures
            final(self).wf(),
            final(self).geometry.radius == old(self).geometry.radius,
            final(self).pen_offset == old(self).pen_offset,
            final(self).geometry.centre == end,
            final(self).roll_scaled as int == roll_after(
                old(self).roll_scaled as int,
                distance as int,
                wheel_modulus(old(self).geometry.radius as int),
            ),
    {
        self.geometry.centre = end;
        let c: u64 = self.geometry.circumference_units() as u64;
        let m: u64 = (TURN_MDEG as u64) * c;
        proof {
            lemma_mod_division_less_than_divisor(distance as int, m as int);
        }
        let d: u64 = distance % m;
        let next: u64 = (self.roll_scaled + (m - d)) % m;
        proof {
            lemma_mod_sub_form(self.roll_scaled as int, distance as int, m as int);
            lemma_mod_division_less_than_divisor(
                self.roll_scaled as int + (m - d) as int,
                m as int,
            );
        }
        self.roll_scaled = next;
    }

    /// Where the pen is: the point interpolated `pen_offset` of the way from
    /// the wheel's centre towards the rim point at the roll phase, that is
    /// the centre plus a spoke of length `pen_offset * radius` at the roll
    /// phase angle.
    pub open spec fn pen_view(self) -> PointV {
        PointV {
            centre: self.geometry.centre@,
            spoke: PolarV {
                mag: FracV {
                    num: self.pen_offset.num * self.geometry.radius,
                    den: self.pen_offset.den as int,
                },
                angle: FracV {
                    num: self.roll_scaled as int,
                    den: c_units_v(self.geometry.radius as int),
                },
            },
        }
    }

    /// The pen's current position.
    pub fn pen_location(&self) -> (p: PenPoint)
        requires
            self.wf(),
        ensures
            p@ == self.pen_view(),
            p.wf(),
    {
        proof {
            let a = self.pen_offset.num as int;
            let b = self.geometry.radius as int;
            assert(-0x8000_0000 * 0xffff_ffff <= a * b <= 0x7fff_ffff * 0xffff_ffff)
                by (nonlinear_arith)
                requires
                    -0x8000_0000 <= a <= 0x7fff_ffff,
                    0 <= b <= 0xffff_ffff,
            ;
        }
        let mag_num: i64 = (self.pen_offset.num as i64) * (self.geometry.radius as i64);
        PenPoint {
            centre: self.geometry.centre,
            spoke: PolarVec {
                mag: Frac::new(mag_num, self.pen_offset.den as u64),
                angle: Frac::new(
                    self.roll_scaled as i64,
                    self.geometry.circumference_units() as u64,
                ),
            },
        }
    }

    /// Move the pen along the spoke; the live slider of the interface ends
    /// up here.
    pub fn set_pen_offset(&mut self, pen_offset: PenOffset)
        requires
            old(self).wf(),
            pen_offset.wf(),
        ensures
            final(self).wf(),
            final(self).pen_offset == pen_offset,
            final(self).geometry == old(self).geometry,
            final(self).roll_scaled == old(self).roll_scaled,
    {
        self.pen_offset = pen_offset;
    }
}

} // verus!
