// Camera transform tests: the pixel corners and center of the screen
// map onto the visible world rectangle, exactly.

use orbit_core::fixed::FX_SCALE;
use orbit_core::frac::Frac;
use orbit_core::fixed::Fx;
use orbit_core::state::{PixelVec, State};

/// The expected world x-extent of the view: zoom times aspect ratio.
fn zoom_times_aspect(s: &State) -> Frac {
    let a = s.aspect_ratio();
    Frac::new(a.num * (s.zoom.raw as i128), a.den * (FX_SCALE as i128))
}

/// The zoom as an exact fraction of world units.
fn zoom_frac(s: &State) -> Frac {
    Frac::new(s.zoom.raw as i128, FX_SCALE as i128)
}

fn neg(f: &Frac) -> Frac {
    Frac::new(-f.num, f.den)
}

// (0,0)
//     +-+
//     +-+
//        (width-px, height-px)
//      |
//      v
// (-1az,1z)
//     +-+
//     +-+
//        (1az,-1z)
// :a aspect ratio
// :z zoom
fn check_screen_to_world(s: &State) {
    let az = zoom_times_aspect(s);
    let z = zoom_frac(s);
    let w = s.screen_width as i32;
    let h = s.screen_height as i32;

    let top_left = s.screen_to_world(PixelVec { x: 0, y: 0 });
    assert!(top_left.x.eq_frac(&neg(&az)), "top-left x");
    assert!(top_left.y.eq_frac(&z), "top-left y");

    let top_right = s.screen_to_world(PixelVec { x: w, y: 0 });
    assert!(top_right.x.eq_frac(&az), "top-right x");
    assert!(top_right.y.eq_frac(&z), "top-right y");

    let bottom_left = s.screen_to_world(PixelVec { x: 0, y: h });
    assert!(bottom_left.x.eq_frac(&neg(&az)), "bottom-left x");
    assert!(bottom_left.y.eq_frac(&neg(&z)), "bottom-left y");

    let bottom_right = s.screen_to_world(PixelVec { x: w, y: h });
    assert!(bottom_right.x.eq_frac(&az), "bottom-right x");
    assert!(bottom_right.y.eq_frac(&neg(&z)), "bottom-right y");

    let zero = Frac::new(0, 1);
    let center = s.screen_to_world(PixelVec { x: w / 2, y: h / 2 });
    assert!(center.x.eq_frac(&zero), "center x");
    assert!(center.y.eq_frac(&zero), "center y");
}

#[test]
fn screen_to_world_zoom_1_aspect_1() {
    check_screen_to_world(&State::new(100, 100));
}

#[test]
fn screen_to_world_zoom_1() {
    check_screen_to_world(&State::new(160, 90));
}

#[test]
fn screen_to_world() {
    let mut state = State::new(160, 90);
    state.zoom = Fx::new(330_000); // 0.33 world units
    check_screen_to_world(&state);
}

#[test]
fn visible_world_range() {
    let mut state = State::new(180, 90);
    state.zoom = Fx::new(3_000_000); // 3 world units
    let (min, max) = state.visible_world_range();
    assert!(min.x.eq_frac(&Frac::new(-6, 1)));
    assert!(min.y.eq_frac(&Frac::new(-3, 1)));
    assert!(max.x.eq_frac(&Frac::new(6, 1)));
    assert!(max.y.eq_frac(&Frac::new(3, 1)));
}

#[test]
fn center_pixel_maps_to_origin_for_square_screen() {
    let state = State::new(100, 100);
    assert_eq!(state.zoom.raw, 16 * FX_SCALE);
    let center = state.screen_to_world(PixelVec { x: 50, y: 50 });
    let zero = Frac::new(0, 1);
    assert!(center.x.eq_frac(&zero));
    assert!(center.y.eq_frac(&zero));
    assert_eq!(center.x.num, 0);
    assert_eq!(center.y.num, 0);
}

#[test]
fn aspect_ratio_is_width_over_height() {
    let state = State::new(160, 90);
    let a = state.aspect_ratio();
    assert_eq!(a.num, 160);
    assert_eq!(a.den, 90);
}

#[test]
fn projection_window_matches_zoomed_extents() {
    let state = State::new(100, 100);
    // origin (0,0), zoom 16, aspect 1
    let p = state.projection();
    assert!(p.left.eq_frac(&Frac::new(-16, 1)));
    assert!(p.right.eq_frac(&Frac::new(16, 1)));
    assert!(p.bottom.eq_frac(&Frac::new(-16, 1)));
    assert!(p.top.eq_frac(&Frac::new(16, 1)));
    assert_eq!((p.near.num, p.near.den), (1, 1));
    assert_eq!((p.far.num, p.far.den), (-1, 1));
}

#[test]
fn projection_follows_pan_and_zoom() {
    let mut state = State::new(180, 90);
    state.zoom = Fx::new(3_000_000); // 3 world units
    state.origin.x = Fx::new(10_000_000); // 10 world units
    state.origin.y = Fx::new(-2_000_000); // -2 world units
    let p = state.projection();
    assert!(p.left.eq_frac(&Frac::new(4, 1))); // 10 - 3*2
    assert!(p.right.eq_frac(&Frac::new(16, 1))); // 10 + 3*2
    assert!(p.bottom.eq_frac(&Frac::new(-5, 1))); // -2 - 3
    assert!(p.top.eq_frac(&Frac::new(1, 1))); // -2 + 3
}
