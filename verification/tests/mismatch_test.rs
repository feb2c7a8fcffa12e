// Tests for the curve/body mismatch check and the initial scenario.

use orbit_core::drawables::Drawables;
use orbit_core::entities::{OrbitBody, OrbitCurve};
use orbit_core::fixed::{Fx, WorldVec, FX_SCALE};
use orbit_core::state::State;

fn body(id: u128, cx: i64, cy: i64, radius: i64) -> OrbitBody {
    OrbitBody {
        id,
        center: WorldVec::new(cx, cy),
        radius: Fx::new(radius),
        mass: Fx::new(FX_SCALE),
        velocity: WorldVec::new(0, 0),
    }
}

fn curve(points: Vec<(i64, i64)>) -> OrbitCurve {
    OrbitCurve {
        plots: points.iter().map(|&(x, y)| WorldVec::new(x, y)).collect(),
    }
}

const FULL_TOLERANCE: i64 = FX_SCALE; // a fault tolerance of 1.0

#[test]
fn no_curves_is_never_a_mismatch() {
    let d = Drawables {
        orbit_bodies: vec![body(1, 0, 0, 500_000)],
        orbit_curves: vec![],
    };
    assert!(!d.curve_body_mismatch(Fx::new(FULL_TOLERANCE)));
    assert!(!d.curve_body_mismatch(Fx::new(1))); // tiny tolerance
    assert!(!d.curve_body_mismatch(Fx::new(0))); // zero tolerance
}

#[test]
fn fresh_state_reports_no_mismatch() {
    let s = State::new(320, 200);
    assert_eq!(s.drawables.orbit_curves.len(), 0);
    assert!(!s.drawables.curve_body_mismatch(Fx::new(FULL_TOLERANCE)));
}

#[test]
fn empty_curve_is_skipped() {
    let d = Drawables {
        orbit_bodies: vec![body(1, 0, 0, 500_000)],
        orbit_curves: vec![curve(vec![])],
    };
    assert!(!d.curve_body_mismatch(Fx::new(FULL_TOLERANCE)));
}

#[test]
fn distance_equal_to_threshold_is_not_a_mismatch() {
    // radius 0.5, tolerance 1.0: the threshold is exactly 0.5
    let d = Drawables {
        orbit_bodies: vec![body(1, 0, 0, 500_000)],
        orbit_curves: vec![curve(vec![(500_000, 0)])],
    };
    assert!(!d.curve_body_mismatch(Fx::new(FULL_TOLERANCE)));
}

#[test]
fn distance_just_over_threshold_is_a_mismatch() {
    let d = Drawables {
        orbit_bodies: vec![body(1, 0, 0, 500_000)],
        orbit_curves: vec![curve(vec![(500_001, 0)])],
    };
    assert!(d.curve_body_mismatch(Fx::new(FULL_TOLERANCE)));
}

#[test]
fn fractional_tolerance_scales_the_threshold() {
    // radius 1.0, tolerance 0.5: the threshold is 0.5
    let within = Drawables {
        orbit_bodies: vec![body(1, 0, 0, FX_SCALE)],
        orbit_curves: vec![curve(vec![(400_000, 0)])],
    };
    assert!(!within.curve_body_mismatch(Fx::new(500_000)));
    let beyond = Drawables {
        orbit_bodies: vec![body(1, 0, 0, FX_SCALE)],
        orbit_curves: vec![curve(vec![(600_000, 0)])],
    };
    assert!(beyond.curve_body_mismatch(Fx::new(500_000)));
}

#[test]
fn threshold_uses_the_smallest_radius() {
    // Bodies of radius 1.0 and 0.2: every curve is held to 0.2.
    let d = Drawables {
        orbit_bodies: vec![body(1, 0, 0, FX_SCALE), body(2, 5_000_000, 0, 200_000)],
        orbit_curves: vec![curve(vec![(500_000, 0)])],
    };
    // Body 1's curve is 0.5 away: within its own radius, but beyond
    // the smallest radius, so it counts as a mismatch.
    assert!(d.curve_body_mismatch(Fx::new(FULL_TOLERANCE)));
}

#[test]
fn second_curve_can_trigger_the_mismatch() {
    let d = Drawables {
        orbit_bodies: vec![body(1, 0, 0, 500_000), body(2, 5_000_000, 0, 500_000)],
        orbit_curves: vec![
            curve(vec![(100_000, 0)]),
            curve(vec![(5_000_000, 900_000), (5_000_000, 1_500_000)]),
        ],
    };
    assert!(d.curve_body_mismatch(Fx::new(FULL_TOLERANCE)));
}

#[test]
fn zero_tolerance_flags_any_nonzero_distance() {
    let drifted = Drawables {
        orbit_bodies: vec![body(1, 0, 0, 500_000)],
        orbit_curves: vec![curve(vec![(1, 0)])],
    };
    assert!(drifted.curve_body_mismatch(Fx::new(0)));
    let exact = Drawables {
        orbit_bodies: vec![body(1, 0, 0, 500_000)],
        orbit_curves: vec![curve(vec![(0, 0)])],
    };
    assert!(!exact.curve_body_mismatch(Fx::new(0)));
}

#[test]
fn mismatch_check_is_idempotent() {
    let d = Drawables {
        orbit_bodies: vec![body(1, 0, 0, 500_000), body(2, 5_000_000, 0, 300_000)],
        orbit_curves: vec![curve(vec![(250_000, 250_000)])],
    };
    let first = d.curve_body_mismatch(Fx::new(FULL_TOLERANCE));
    let second = d.curve_body_mismatch(Fx::new(FULL_TOLERANCE));
    let third = d.curve_body_mismatch(Fx::new(FULL_TOLERANCE));
    assert_eq!(first, second);
    assert_eq!(second, third);
}

#[test]
fn new_state_has_the_four_body_scenario() {
    let s = State::new(640, 480);
    let bodies = &s.drawables.orbit_bodies;
    assert_eq!(bodies.len(), 4);
    assert_eq!(s.drawables.orbit_curves.len(), 0);
    assert!(!s.pause);
    assert!(!s.user_quit);
    assert!(s.render_curves);
    // pairwise distinct identifiers
    for i in 0..4 {
        for j in (i + 1)..4 {
            assert_ne!(bodies[i].id, bodies[j].id);
        }
    }
    // the heavy central body plus three orbiters at increasing distance
    assert_eq!(bodies[0].center, WorldVec::new(0, 0));
    assert_eq!(bodies[0].radius, Fx::new(1_200_000));
    assert_eq!(bodies[0].mass, Fx::new(1_660_000_000));
    assert_eq!(bodies[0].velocity, WorldVec::new(0, -1_000_000));
    assert_eq!(bodies[1].center, WorldVec::new(3_500_000, 0));
    assert_eq!(bodies[1].radius, Fx::new(900_000));
    assert_eq!(bodies[1].mass, Fx::new(1_000_000_000));
    assert_eq!(bodies[1].velocity, WorldVec::new(0, 1_600_000));
    assert_eq!(bodies[2].center, WorldVec::new(9_000_000, 0));
    assert_eq!(bodies[2].radius, Fx::new(300_000));
    assert_eq!(bodies[2].mass, Fx::new(1_000_000));
    assert_eq!(bodies[2].velocity, WorldVec::new(0, 2_000_000));
    assert_eq!(bodies[3].center, WorldVec::new(-12_000_000, 0));
    assert_eq!(bodies[3].radius, Fx::new(400_000));
    assert_eq!(bodies[3].mass, Fx::new(2_000_000));
    assert_eq!(bodies[3].velocity, WorldVec::new(0, -1_500_000));
}

#[test]
fn new_state_camera_defaults() {
    let s = State::new(800, 600);
    assert_eq!(s.screen_width, 800);
    assert_eq!(s.screen_height, 600);
    assert_eq!(s.origin, WorldVec::new(0, 0));
    assert_eq!(s.zoom, Fx::new(16 * FX_SCALE));
    assert_eq!(s.view.z_scale, Fx::new(FX_SCALE));
}

#[test]
fn two_new_states_have_different_identifiers() {
    // identifiers are drawn from a collision-resistant generator, so
    // two separately constructed states should not share any
    let a = State::new(100, 100);
    let b = State::new(100, 100);
    for i in 0..4 {
        for j in 0..4 {
            assert_ne!(
                a.drawables.orbit_bodies[i].id,
                b.drawables.orbit_bodies[j].id
            );
        }
    }
}
