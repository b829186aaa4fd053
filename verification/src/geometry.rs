//! Symbolic polar geometry.
//!
//! A `PolarVec` is a vector given by an exact magnitude and an exact angle
//! (in milli-degrees); it stands for `mag * (cos angle, sin angle)`.  Every
//! point the spirograph traces is the sum of two such vectors: the wheel's
//! centre and the pen's spoke.  Keeping both terms symbolic means no
//! trigonometry is ever evaluated in the model, so all geometry is exact.

use vstd::prelude::*;

use crate::frac::{Frac, FracV};

verus! {

/// The mathematical value of a polar vector.
#[verifier::ext_equal]
pub ghost struct PolarV {
    pub mag: FracV,
    pub angle: FracV,
}

/// The mathematical value of a traced point: `centre + spoke`.
#[verifier::ext_equal]
pub ghost struct PointV {
    pub centre: PolarV,
    pub spoke: PolarV,
}

/// The zero vector, written as a zero magnitude at angle zero.
pub open spec fn origin_v() -> PolarV {
    PolarV { mag: FracV { num: 0, den: 1 }, angle: FracV { num: 0, den: 1 } }
}

/// An executable polar vector.
#[derive(Clone, Copy, PartialEq, Eq, Structural, Debug)]
pub struct PolarVec {
    pub mag: Frac,
    pub angle: Frac,
}

impl View for PolarVec {
    type V = PolarV;

    open spec fn view(&self) -> PolarV {
        PolarV { mag: self.mag@, angle: self.angle@ }
    }
}

impl PolarVec {
    pub open spec fn wf(self) -> bool {
        self.mag.wf() && self.angle.wf()
    }

    /// The zero vector.
    pub fn origin() -> (v: PolarVec)
        ensures
            v@ == origin_v(),
            v.wf(),
    {
        PolarVec { mag: Frac::whole(0), angle: Frac::whole(0) }
    }
}

/// An executable traced point: `centre + spoke`.
#[derive(Clone, Copy, PartialEq, Eq, Structural, Debug)]
pub struct PenPoint {
    pub centre: PolarVec,
    pub spoke: PolarVec,
}

impl View for PenPoint {
    type V = PointV;

    open spec fn view(&self) -> PointV {
        PointV { centre: self.centre@, spoke: self.spoke@ }
    }
}

impl PenPoint {
    pub open spec fn wf(self) -> bool {
        self.centre.wf() && self.spoke.wf()
    }
}

/// A circle's circumference counted in angle-scaled length units: the unit
/// is chosen so that a circle of radius `r` has circumference `r`, and a
/// degenerate circle of radius zero counts as `1` so that rolling along it
/// stays well defined.
pub open spec fn c_units_v(radius: int) -> int {
    if radius == 0 {
        1
    } else {
        radius
    }
}

/// A circle: a radius and a centre given as one polar vector from the origin.
#[derive(Clone, Copy, PartialEq, Eq, Structural, Debug)]
pub struct Circle {
    pub radius: u32,
    pub centre: PolarVec,
}

impl Circle {
    pub open spec fn wf(self) -> bool {
        self.centre.wf()
    }

    /// A circle of the given radius centred on the origin.
    pub fn new(radius: u32) -> (c: Circle)
        ensures
            c.radius == radius,
            c.centre@ == origin_v(),
            c.wf(),
    {
        Circle { radius, centre: PolarVec::origin() }
    }

    /// A circle of the given radius at the given centre.
    pub fn new_at(centre: PolarVec, radius: u32) -> (c: Circle)
        requires
            centre.wf(),
        ensures
            c.radius == radius,
            c.centre == centre,
            c.wf(),
    {
        Circle { radius, centre }
    }

    /// The point on this circle at the given angle: the centre plus a
    /// radius-long spoke at that angle.
    pub fn pt_at(&self, angle_mdeg: u32) -> (p: PenPoint)
        requires
            self.wf(),
        ensures
            p.centre == self.centre,
            p.spoke.mag == (Frac { num: self.radius as i64, den: 1u64 }),
            p.spoke.angle == (Frac { num: angle_mdeg as i64, den: 1u64 }),
            p.wf(),
    {
        PenPoint {
            centre: self.centre,
            spoke: PolarVec {
                mag: Frac::whole(self.radius as i64),
                angle: Frac::whole(angle_mdeg as i64),
            },
        }
    }

    /// The point on this circle at the given angle as a single vector from
    /// the origin; only an origin-centred circle can give one.
    pub fn rim_vec(&self, angle_mdeg: u32) -> (v: PolarVec)
        requires
            self.wf(),
            self.centre@ == origin_v(),
        ensures
            v@ == (PolarV {
                mag: FracV { num: self.radius as int, den: 1 },
                angle: FracV { num: angle_mdeg as int, den: 1 },
            }),
            v.wf(),
    {
        PolarVec {
            mag: Frac::whole(self.radius as i64),
            angle: Frac::whole(angle_mdeg as i64),
        }
    }

    /// The circumference in scaled length units, with the degenerate
    /// radius-zero circle counting as one unit.
    pub fn circumference_units(&self) -> (c: u32)
        ensures
            c as int == c_units_v(self.radius as int),
            c >= 1,
    {
        if self.radius == 0 {
            1
        } else {
            self.radius
        }
    }
}

} // verus!
