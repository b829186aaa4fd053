//! Exact rational scalars.
//!
//! `Frac` is an executable fraction; its mathematical value is the ghost
//! `FracV`, a pair of unbounded integers.  Fractions are not reduced:
//! equality of values is the cross-multiplied `frac_eq`.

use vstd::prelude::*;

verus! {

/// The mathematical value of a fraction: `num / den`.
#[verifier::ext_equal]
pub ghost struct FracV {
    pub num: int,
    pub den: int,
}

/// Two fractions denote the same rational number.
pub open spec fn frac_eq(a: FracV, b: FracV) -> bool {
    a.num * b.den == b.num * a.den
}

/// An executable fraction.
#[derive(Clone, Copy, PartialEq, Eq, Structural, Debug)]
pub struct Frac {
    pub num: i64,
    pub den: u64,
}

impl View for Frac {
    type V = FracV;

    open spec fn view(&self) -> FracV {
        FracV { num: self.num as int, den: self.den as int }
    }
}

impl Frac {
    pub open spec fn wf(self) -> bool {
        self.den >= 1
    }

    /// The fraction `num / den`.
    pub fn new(num: i64, den: u64) -> (r: Frac)
        requires
            den >= 1,
        ensures
            r.num == num,
            r.den == den,
            r.wf(),
    {
        Frac { num, den }
    }

    /// The whole number `n`.
    pub fn whole(n: i64) -> (r: Frac)
        ensures
            r.num == n,
            r.den == 1,
            r.wf(),
    {
        Frac { num: n, den: 1 }
    }
}

/// Where the pen sits along the wheel's spoke, as a fraction of the wheel's
/// radius: `0` is the wheel centre, `1` the rim; values outside `[0, 1]`
/// overshoot on purpose.
#[derive(Clone, Copy, PartialEq, Eq, Structural, Debug)]
pub struct PenOffset {
    pub num: i32,
    pub den: u32,
}

impl View for PenOffset {
    type V = FracV;

    open spec fn view(&self) -> FracV {
        FracV { num: self.num as int, den: self.den as int }
    }
}

impl PenOffset {
    pub open spec fn wf(self) -> bool {
        self.den >= 1
    }

    /// The offset `num / den`.
    pub fn new(num: i32, den: u32) -> (r: PenOffset)
        requires
            den >= 1,
        ensures
            r.num == num,
            r.den == den,
            r.wf(),
    {
        PenOffset { num, den }
    }
}

} // verus!
