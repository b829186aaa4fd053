//! Checks of whole traces: building a spirograph, running the kinematic
//! model frame by frame, and holding it against the closed form.

use spirograph::frac::{Frac, PenOffset};
use spirograph::geometry::PolarVec;
use spirograph::model::{init_spiro, Model};
use spirograph::spiro::Spiro;

#[test]
fn thirds_ratio_splits_the_radii_exactly() {
    let (inner, outer, wheel) = init_spiro(2, 3, PenOffset::new(3, 2), 300, 0, 0);
    assert_eq!(inner.radius, 100);
    assert_eq!(outer.radius, 300);
    assert_eq!(wheel.geometry.radius, 200);
    assert_eq!(wheel.roll_scaled, 0);
    assert_eq!(wheel.geometry.centre.mag, Frac::whole(100));
    assert_eq!(wheel.geometry.centre.angle, Frac::whole(0));
}

#[test]
fn rounded_ratio_still_sums_to_the_outer_radius() {
    // a third of 100 rounds: inner 66, wheel 34, but they still sum to 100
    let (inner, _, wheel) = init_spiro(1, 3, PenOffset::new(1, 1), 100, 0, 0);
    assert_eq!(inner.radius, 66);
    assert_eq!(wheel.geometry.radius, 34);
}

#[test]
fn starting_roll_phase_wraps_into_one_turn() {
    // wheel of radius 200: one scaled turn is 72_000_000
    let (_, _, wheel) = init_spiro(2, 3, PenOffset::new(1, 1), 300, 73_000_000, 0);
    assert_eq!(wheel.roll_scaled, 1_000_000);
}

#[test]
fn starting_angle_places_the_wheel_centre() {
    let (_, _, wheel) = init_spiro(2, 3, PenOffset::new(1, 1), 300, 0, 45_000);
    assert_eq!(wheel.geometry.centre.mag, Frac::whole(100));
    assert_eq!(wheel.geometry.centre.angle, Frac::whole(45_000));
}

#[test]
fn a_fresh_model_has_an_empty_trail() {
    let m: Model = Model::new(2, 3, PenOffset::new(3, 2), 300, 500);
    assert!(m.first_frame);
    assert_eq!(m.points.len(), 0);
    assert_eq!(m.theta, 0);
    assert_eq!(m.wheel.roll_scaled, 0);
}

#[test]
fn each_frame_appends_one_pen_position() {
    let mut m: Model = Model::new(2, 3, PenOffset::new(3, 2), 300, 500);
    m.step();
    assert!(!m.first_frame);
    assert_eq!(m.points.len(), 1);
    assert_eq!(m.points[0], m.pen_location());
    let first = m.points[0];
    m.step();
    assert_eq!(m.points.len(), 2);
    assert_eq!(m.points[0], first);
    assert_eq!(m.points[1], m.pen_location());
}

#[test]
fn the_drive_angle_wraps_at_one_turn() {
    let mut m: Model = Model::new(1, 2, PenOffset::new(1, 1), 200, 250_000);
    m.step();
    assert_eq!(m.theta, 250_000);
    m.step();
    assert_eq!(m.theta, 140_000);
}

#[test]
fn one_frame_rolls_the_contact_arc() {
    // delta 500 mdeg along the outer circle of radius 300: distance 150000;
    // wheel radius 200, so the scaled phase drops by 150000 from 72_000_000
    let mut m: Model = Model::new(2, 3, PenOffset::new(3, 2), 300, 500);
    m.step();
    assert_eq!(m.wheel.roll_scaled, 71_850_000);
    assert_eq!(m.wheel.geometry.centre.angle, Frac::whole(500));
}

#[test]
fn kinematic_integration_repeats_after_radius_ratio_revolutions() {
    // R / r = 2: after two revolutions of theta, drive angle and roll
    // phase are both back at their start
    let mut m: Model = Model::new(1, 2, PenOffset::new(3, 2), 200, 360_000);
    m.step();
    m.step();
    assert_eq!(m.theta, 0);
    assert_eq!(m.wheel.roll_scaled, 0);
    assert_eq!(m.points.len(), 2);
}

#[test]
fn both_models_trace_the_same_points() {
    let mut m: Model = Model::new(2, 3, PenOffset::new(3, 2), 300, 500);
    let mut s: Spiro = Spiro::new(300, 200, PenOffset::new(3, 2), 0, 500);
    for _ in 0..7 {
        m.step();
        s.step();
        assert_eq!(m.pen_location(), s.pen_location());
    }
    assert_eq!(s.theta, 3500);
    let p = m.pen_location();
    assert_eq!(p.centre.mag, Frac::whole(100));
    assert_eq!(p.centre.angle, Frac::whole(3500));
    assert_eq!(p.spoke.mag, Frac::new(600, 2));
    // roll phase: -3500 * 300 wrapped into one scaled turn of 72_000_000
    assert_eq!(p.spoke.angle, Frac::new(70_950_000, 200));
}

#[test]
fn both_models_agree_across_a_wrap_of_the_drive_angle() {
    // 800 frames of 500 mdeg pass one full revolution of theta
    let mut m: Model = Model::new(2, 3, PenOffset::new(3, 2), 300, 500);
    let mut s: Spiro = Spiro::new(300, 200, PenOffset::new(3, 2), 0, 500);
    for _ in 0..800 {
        m.step();
        s.step();
    }
    assert_eq!(s.theta, 400_000);
    assert_eq!(m.theta, 40_000);
    assert_eq!(m.pen_location(), s.pen_location());
}

#[test]
fn moving_the_pen_mid_run_keeps_the_models_together() {
    let mut m: Model = Model::new(2, 3, PenOffset::new(3, 2), 300, 500);
    let mut s: Spiro = Spiro::new(300, 200, PenOffset::new(3, 2), 0, 500);
    m.step();
    s.step();
    m.set_pen_offset(PenOffset::new(-1, 2));
    s.set_pen_offset(PenOffset::new(-1, 2));
    m.step();
    s.step();
    assert_eq!(m.pen_location(), s.pen_location());
    assert_eq!(m.pen_location().spoke.mag, Frac::new(-200, 2));
}

#[test]
fn the_wheel_centre_is_the_guide_line_end() {
    // the guide line a renderer draws runs from the pen to the wheel centre
    let mut m: Model = Model::new(2, 3, PenOffset::new(3, 2), 300, 500);
    m.step();
    let centre: PolarVec = m.wheel.geometry.centre;
    assert_eq!(centre.mag, Frac::whole(100));
    assert_eq!(centre.angle, Frac::whole(500));
    assert_eq!(m.pen_location().centre, centre);
}
