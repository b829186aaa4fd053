//! Checks of the individual parts: fractions, circles, the wheel and the
//! closed-form model on concrete values.

use spirograph::frac::{Frac, PenOffset};
use spirograph::geometry::{Circle, PolarVec};
use spirograph::spiro::Spiro;
use spirograph::wheel::Wheel;

#[test]
fn whole_fraction_has_denominator_one() {
    assert_eq!(Frac::whole(5), Frac::new(5, 1));
    assert_eq!(Frac::whole(-3).num, -3);
    assert_eq!(Frac::whole(-3).den, 1);
}

#[test]
fn circumference_units_equal_the_radius() {
    let c: Circle = Circle::new(250);
    assert_eq!(c.circumference_units(), 250);
}

#[test]
fn degenerate_circle_counts_one_circumference_unit() {
    let c: Circle = Circle::new(0);
    assert_eq!(c.circumference_units(), 1);
}

#[test]
fn point_on_circle_is_centre_plus_radius_spoke() {
    let c: Circle = Circle::new(100);
    let p = c.pt_at(90000);
    assert_eq!(p.centre, PolarVec::origin());
    assert_eq!(p.spoke.mag, Frac::whole(100));
    assert_eq!(p.spoke.angle, Frac::whole(90000));
}

#[test]
fn rolling_turns_the_wheel_backwards() {
    // wheel of radius 200: one scaled turn is 360000 * 200 = 72_000_000
    let mut w: Wheel = Wheel::new(0, 200, PolarVec::origin(), PenOffset::new(1, 1));
    w.roll(150000, PolarVec::origin());
    assert_eq!(w.roll_scaled, 71_850_000);
    w.roll(150000, PolarVec::origin());
    assert_eq!(w.roll_scaled, 71_700_000);
}

#[test]
fn rolling_no_distance_changes_nothing() {
    let mut w: Wheel = Wheel::new(12345, 200, PolarVec::origin(), PenOffset::new(1, 1));
    w.roll(0, PolarVec::origin());
    assert_eq!(w.roll_scaled, 12345);
}

#[test]
fn rolling_a_whole_scaled_turn_returns_the_phase() {
    let mut w: Wheel = Wheel::new(777, 100, PolarVec::origin(), PenOffset::new(1, 1));
    w.roll(36_000_000, PolarVec::origin());
    assert_eq!(w.roll_scaled, 777);
}

#[test]
fn pen_spoke_scales_the_wheel_radius_by_the_offset() {
    let w: Wheel = Wheel::new(0, 200, PolarVec::origin(), PenOffset::new(3, 2));
    let p = w.pen_location();
    assert_eq!(p.spoke.mag, Frac::new(600, 2));
}

#[test]
fn negative_pen_offset_overshoots_backwards() {
    let w: Wheel = Wheel::new(0, 200, PolarVec::origin(), PenOffset::new(-2, 1));
    let p = w.pen_location();
    assert_eq!(p.spoke.mag, Frac::new(-400, 1));
}

#[test]
fn closed_form_pen_at_a_small_angle() {
    // R = 3, r = 1: at theta = 100 the wheel has turned back 300 of 360000
    let s: Spiro = Spiro::new(3, 1, PenOffset::new(1, 1), 100, 1);
    let p = s.pen_location();
    assert_eq!(p.centre.mag, Frac::whole(2));
    assert_eq!(p.centre.angle, Frac::whole(100));
    assert_eq!(p.spoke.mag, Frac::new(1, 1));
    assert_eq!(p.spoke.angle, Frac::new(359_700, 1));
}

#[test]
fn pen_offset_zero_keeps_the_pen_at_the_wheel_centre() {
    let s: Spiro = Spiro::new(300, 200, PenOffset::new(0, 1), 12345, 500);
    let p = s.pen_location();
    assert_eq!(p.spoke.mag, Frac::new(0, 1));
    assert_eq!(p.centre.mag, Frac::whole(100));
}

#[test]
fn pen_offset_one_puts_the_pen_on_the_rim() {
    let s: Spiro = Spiro::new(300, 200, PenOffset::new(1, 1), 12345, 500);
    let p = s.pen_location();
    assert_eq!(p.spoke.mag, Frac::new(200, 1));
}

#[test]
fn wheel_filling_the_outer_circle_circles_the_origin() {
    // contact circle radius R - r = 0; pen stays at offset * R = 450 = 900/2
    let s: Spiro = Spiro::new(300, 300, PenOffset::new(3, 2), 1000, 500);
    let p = s.pen_location();
    assert_eq!(p.centre.mag, Frac::whole(0));
    assert_eq!(p.spoke.mag, Frac::new(900, 2));
}

#[test]
fn closed_form_trace_repeats_after_radius_ratio_revolutions() {
    // R / r = 2: two revolutions of theta bring the pen back exactly
    let s1: Spiro = Spiro::new(200, 100, PenOffset::new(3, 2), 5000, 500);
    let s2: Spiro = Spiro::new(200, 100, PenOffset::new(3, 2), 5000 + 720_000, 500);
    assert_eq!(s1.pen_location(), s2.pen_location());
}

#[test]
fn stepping_the_closed_form_accumulates_theta() {
    let mut s: Spiro = Spiro::new(300, 200, PenOffset::new(3, 2), 0, 500);
    s.step();
    s.step();
    s.step();
    assert_eq!(s.theta, 1500);
}

#[test]
fn moving_the_pen_changes_only_the_offset() {
    let mut s: Spiro = Spiro::new(300, 200, PenOffset::new(3, 2), 777, 500);
    s.set_pen_offset(PenOffset::new(1, 4));
    assert_eq!(s.pen_offset, PenOffset::new(1, 4));
    assert_eq!(s.theta, 777);
    assert_eq!(s.pen_location().spoke.mag, Frac::new(200, 4));
}
