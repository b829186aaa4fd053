//! An exact model of a spirograph: a wheel rolling inside a fixed outer
//! circle, a pen fixed part-way along one of its spokes.
//!
//! Angles are integers counted in milli-degrees, so one revolution is
//! `TURN_MDEG` units.  The wheel's own rotation (its roll phase) is kept
//! scaled by the wheel's circumference, which makes the rolling-contact
//! integration exact: no error accumulates over a run, and the kinematic
//! model can be proved to agree with the closed-form hypotrochoid formula.
//!
//! Points are kept in symbolic polar form (a magnitude and an angle, both
//! exact rationals); a renderer turns them into screen coordinates.

use vstd::prelude::*;

pub mod frac;
pub mod geometry;
pub mod laws;
pub mod model;
pub mod spiro;
pub mod wheel;

verus! {

/// Milli-degrees in one full revolution.
pub const TURN_MDEG: u32 = 360000;

} // verus!
