//! Top-level simulation and camera state, and the coordinate transform
//! between screen pixels (origin top-left, y down) and world space
//! (origin at the camera, y up, scaled by zoom and aspect ratio).
//!
//! A pixel `(px, py)` maps to the exact world position
//! `origin + (zoom * aspect * (2*px/w - 1), zoom * (1 - 2*py/h))`,
//! which over the fixed-point camera parameters is the single fraction
//! `((ox*h + z*(2*px - w)) / (FX_SCALE*h), (oy*h + z*(h - 2*py)) / (FX_SCALE*h))`.

use vstd::prelude::*;
use crate::drawables::{distinct_ids, is_initial_bodies, Drawables};
use crate::fixed::{Fx, WorldVec, COORD_LIMIT, FX_SCALE};
use crate::frac::{rat_add, rat_eqv, rat_mul, rat_sub, Frac, FracVec};

verus! {

/// A screen-space pixel position: origin at the top-left corner of the
/// render target, y growing downward.
#[derive(Clone, Copy, Debug, PartialEq, Eq, Structural)]
pub struct PixelVec {
    pub x: i32,
    pub y: i32,
}

/// The fixed top-down view transform: the identity with the scale along
/// the camera axis set to `z_scale`.
#[derive(Clone, Copy, Debug, PartialEq, Eq, Structural)]
pub struct BirdsEyeView {
    pub z_scale: Fx,
}

/// Builds the top-down view: the identity transform with the camera-axis
/// scale set to `height`.
pub fn birds_eye_at_z(height: Fx) -> (r: BirdsEyeView)
    ensures
        r.z_scale == height,
{
    BirdsEyeView { z_scale: height }
}

/// The orthographic projection window handed to the render backend: the
/// world-space extents that map onto the canonical unit cube.
#[derive(Clone, Copy, Debug, PartialEq, Eq, Structural)]
pub struct Ortho {
    pub left: Frac,
    pub right: Frac,
    pub bottom: Frac,
    pub top: Frac,
    pub near: Frac,
    pub far: Frac,
}

/// Top-level simulation and camera state.
#[derive(Clone, Debug)]
pub struct State {
    /// World-space point the camera is centered on; panned by the host.
    pub origin: WorldVec,
    /// Half-height of the visible world window, in world units; > 0.
    pub zoom: Fx,
    /// Pixel width of the render target; > 0.
    pub screen_width: u32,
    /// Pixel height of the render target; > 0.
    pub screen_height: u32,
    /// Fixed top-down view transform, set once at construction.
    pub view: BirdsEyeView,
    /// The host asked to quit.
    pub user_quit: bool,
    /// The bodies and their predicted curves.
    pub drawables: Drawables,
    /// The simulation is paused.
    pub pause: bool,
    /// The render backend should draw the predicted curves.
    pub render_curves: bool,
}

impl State {
    /// The camera parameters lie in the ranges the transforms are
    /// defined on: positive screen dimensions no larger than a pixel
    /// index can hold, a positive zoom, and an origin inside the world
    /// coordinate limits.
    pub open spec fn camera_wf(self) -> bool {
        &&& 0 < self.screen_width <= 0x7fff_ffff
        &&& 0 < self.screen_height <= 0x7fff_ffff
        &&& 0 < self.zoom.raw <= COORD_LIMIT
        &&& self.origin.in_world()
    }

    /// The camera origin's x-coordinate as a rational pair.
    pub open spec fn origin_x_rat(self) -> (int, int) {
        (self.origin.x.raw as int, FX_SCALE as int)
    }

    /// The camera origin's y-coordinate as a rational pair.
    pub open spec fn origin_y_rat(self) -> (int, int) {
        (self.origin.y.raw as int, FX_SCALE as int)
    }

    /// The zoom as a rational pair.
    pub open spec fn zoom_rat(self) -> (int, int) {
        (self.zoom.raw as int, FX_SCALE as int)
    }

    /// The aspect ratio as a rational pair.
    pub open spec fn aspect_rat(self) -> (int, int) {
        (self.screen_width as int, self.screen_height as int)
    }

    /// Numerator of the world x-coordinate of pixel column `px`, over
    /// the common denominator `stw_den`.
    pub open spec fn stw_num_x(self, px: int) -> int {
        self.origin.x.raw * self.screen_height + self.zoom.raw * (2 * px - self.screen_width)
    }

    /// Numerator of the world y-coordinate of pixel row `py`, over the
    /// common denominator `stw_den`; the sign flip turns y-down pixels
    /// into y-up world coordinates.
    pub open spec fn stw_num_y(self, py: int) -> int {
        self.origin.y.raw * self.screen_height + self.zoom.raw * (self.screen_height - 2 * py)
    }

    /// Common denominator of the screen-to-world results.
    pub open spec fn stw_den(self) -> int {
        FX_SCALE * self.screen_height
    }

    /// The initial state: camera centered on the world origin at zoom
    /// 16 over the given render target, the fixed top-down view, no
    /// request to quit, not paused, curves rendered, and the fixed
    /// four-body starting scenario with freshly generated, pairwise
    /// distinct identifiers and no predicted curves yet.
    pub fn new(screen_width: u32, screen_height: u32) -> (r: State)
        ensures
            r.origin == (WorldVec { x: Fx { raw: 0 }, y: Fx { raw: 0 } }),
            r.zoom.raw == 16 * FX_SCALE,
            r.screen_width == screen_width,
            r.screen_height == screen_height,
            r.view.z_scale.raw == FX_SCALE,
            !r.user_quit,
            !r.pause,
            r.render_curves,
            r.drawables.orbit_bodies@.len() == 4,
            r.drawables.orbit_curves@.len() == 0,
            is_initial_bodies(r.drawables.orbit_bodies@),
            distinct_ids(r.drawables.orbit_bodies@),
            r.drawables.wf(),
    {
        State {
            origin: WorldVec::new(0, 0),
            zoom: Fx::from_units(16),
            screen_width,
            screen_height,
            view: birds_eye_at_z(Fx::from_units(1)),
            user_quit: false,
            drawables: Drawables::initial(),
            pause: false,
            render_curves: true,
        }
    }

    /// Screen width over screen height, as an exact ratio.
    pub fn aspect_ratio(&self) -> (r: Frac)
        requires
            self.screen_height > 0,
        ensures
            r.num == self.screen_width,
            r.den == self.screen_height,
            r.wf(),
    {
        Frac { num: self.screen_width as i128, den: self.screen_height as i128 }
    }

    /// Maps a pixel to world coordinates relative to the camera's view
    /// window, independent of pan: pixel x range `[0, w]` maps onto
    /// world `[-zoom*aspect, +zoom*aspect]` and pixel y range `[0, h]`
    /// onto world `[+zoom, -zoom]` (the y-axis flips).
    pub fn screen_to_world_normalised(&self, pixels: PixelVec) -> (r: FracVec)
        requires
            self.camera_wf(),
        ensures
            r.x.num == self.zoom.raw * (2 * pixels.x - self.screen_width),
            r.y.num == self.zoom.raw * (self.screen_height - 2 * pixels.y),
            r.x.den == self.stw_den(),
            r.y.den == self.stw_den(),
            r.x.wf(),
            r.y.wf(),
    {
        let w: i128 = self.screen_width as i128;
        let h: i128 = self.screen_height as i128;
        let z: i128 = self.zoom.raw as i128;
        let px: i128 = pixels.x as i128;
        let py: i128 = pixels.y as i128;
        let spread_x: i128 = 2 * px - w;
        let spread_y: i128 = h - 2 * py;
        assert(-10_000_000_000_000_000_000_000 <= z * spread_x <= 10_000_000_000_000_000_000_000
            && -10_000_000_000_000_000_000_000 <= z * spread_y
                <= 10_000_000_000_000_000_000_000) by (nonlinear_arith)
            requires
                0 < z <= 1_000_000_000_000i128,
                -7_000_000_000i128 <= spread_x <= 7_000_000_000i128,
                -7_000_000_000i128 <= spread_y <= 7_000_000_000i128,
        ;
        let den: i128 = (FX_SCALE as i128) * h;
        FracVec {
            x: Frac { num: z * spread_x, den },
            y: Frac { num: z * spread_y, den },
        }
    }

    /// Maps a pixel to absolute world coordinates: the normalised
    /// mapping shifted by the camera origin.
    pub fn screen_to_world(&self, pixels: PixelVec) -> (r: FracVec)
        requires
            self.camera_wf(),
        ensures
            r.x.num == self.stw_num_x(pixels.x as int),
            r.y.num == self.stw_num_y(pixels.y as int),
            r.x.den == self.stw_den(),
            r.y.den == self.stw_den(),
            r.x.wf(),
            r.y.wf(),
    {
        let n: FracVec = self.screen_to_world_normalised(pixels);
        let h: i128 = self.screen_height as i128;
        let ox: i128 = self.origin.x.raw as i128;
        let oy: i128 = self.origin.y.raw as i128;
        assert(-10_000_000_000_000_000_000_000
            <= (self.zoom.raw as int) * (2 * pixels.x - self.screen_width)
            <= 10_000_000_000_000_000_000_000
            && -10_000_000_000_000_000_000_000
            <= (self.zoom.raw as int) * (self.screen_height - 2 * pixels.y)
            <= 10_000_000_000_000_000_000_000) by (nonlinear_arith)
            requires
                0 < self.zoom.raw <= 1_000_000_000_000i64,
                -0x8000_0000 <= pixels.x <= 0x7fff_ffff,
                -0x8000_0000 <= pixels.y <= 0x7fff_ffff,
                0 < self.screen_width <= 0x7fff_ffff,
                0 < self.screen_height <= 0x7fff_ffff,
        ;
        assert(-3_000_000_000_000_000_000_000 <= ox * h <= 3_000_000_000_000_000_000_000
            && -3_000_000_000_000_000_000_000 <= oy * h
                <= 3_000_000_000_000_000_000_000) by (nonlinear_arith)
            requires
                0 < h <= 0x8000_0000i128,
                -1_000_000_000_000i128 <= ox <= 1_000_000_000_000i128,
                -1_000_000_000_000i128 <= oy <= 1_000_000_000_000i128,
        ;
        FracVec {
            x: Frac { num: ox * h + n.x.num, den: n.x.den },
            y: Frac { num: oy * h + n.y.num, den: n.y.den },
        }
    }

    /// The orthographic projection window: horizontal half-extent
    /// `zoom * aspect` and vertical half-extent `zoom` around the
    /// camera origin, with the near and far planes fixed at 1 and -1.
    /// The window's edges are exactly the world positions of the
    /// screen's edge pixels.
    pub fn projection(&self) -> (r: Ortho)
        requires
            self.camera_wf(),
        ensures
            r.left.num == self.stw_num_x(0),
            r.right.num == self.stw_num_x(self.screen_width as int),
            r.bottom.num == self.stw_num_y(self.screen_height as int),
            r.top.num == self.stw_num_y(0),
            r.left.den == self.stw_den(),
            r.right.den == self.stw_den(),
            r.bottom.den == self.stw_den(),
            r.top.den == self.stw_den(),
            rat_eqv(
                (r.left.num as int, r.left.den as int),
                rat_sub(self.origin_x_rat(), rat_mul(self.zoom_rat(), self.aspect_rat())),
            ),
            rat_eqv(
                (r.right.num as int, r.right.den as int),
                rat_add(self.origin_x_rat(), rat_mul(self.zoom_rat(), self.aspect_rat())),
            ),
            rat_eqv(
                (r.bottom.num as int, r.bottom.den as int),
                rat_sub(self.origin_y_rat(), self.zoom_rat()),
            ),
            rat_eqv(
                (r.top.num as int, r.top.den as int),
                rat_add(self.origin_y_rat(), self.zoom_rat()),
            ),
            r.near.num == 1 && r.near.den == 1,
            r.far.num == -1 && r.far.den == 1,
    {
        let bottom_left: FracVec = self.screen_to_world(
            PixelVec { x: 0, y: self.screen_height as i32 },
        );
        let top_right: FracVec = self.screen_to_world(
            PixelVec { x: self.screen_width as i32, y: 0 },
        );
        proof {
            lemma_screen_to_world_corners(*self);
        }
        Ortho {
            left: bottom_left.x,
            right: top_right.x,
            bottom: bottom_left.y,
            top: top_right.y,
            near: Frac { num: 1, den: 1 },
            far: Frac { num: -1, den: 1 },
        }
    }

    /// The world-space rectangle currently visible, as the pair
    /// (minimum corner, maximum corner): the world positions of the
    /// bottom-left pixel `(0, h)` and of the top-right pixel `(w, 0)`,
    /// which after the y-flip are the least and greatest visible world
    /// coordinates.
    pub fn visible_world_range(&self) -> (r: (FracVec, FracVec))
        requires
            self.camera_wf(),
        ensures
            r.0.x.num == self.stw_num_x(0),
            r.0.y.num == self.stw_num_y(self.screen_height as int),
            r.1.x.num == self.stw_num_x(self.screen_width as int),
            r.1.y.num == self.stw_num_y(0),
            r.0.x.den == self.stw_den() && r.0.y.den == self.stw_den(),
            r.1.x.den == self.stw_den() && r.1.y.den == self.stw_den(),
            rat_eqv(
                (r.0.x.num as int, r.0.x.den as int),
                rat_sub(self.origin_x_rat(), rat_mul(self.zoom_rat(), self.aspect_rat())),
            ),
            rat_eqv(
                (r.0.y.num as int, r.0.y.den as int),
                rat_sub(self.origin_y_rat(), self.zoom_rat()),
            ),
            rat_eqv(
                (r.1.x.num as int, r.1.x.den as int),
                rat_add(self.origin_x_rat(), rat_mul(self.zoom_rat(), self.aspect_rat())),
            ),
            rat_eqv(
                (r.1.y.num as int, r.1.y.den as int),
                rat_add(self.origin_y_rat(), self.zoom_rat()),
            ),
    {
        proof {
            lemma_screen_to_world_corners(*self);
        }
        (
            self.screen_to_world(PixelVec { x: 0, y: self.screen_height as i32 }),
            self.screen_to_world(PixelVec { x: self.screen_width as i32, y: 0 }),
        )
    }
}

/// The four pixel corners map to the corners of the visible world
/// rectangle: pixel column 0 to `origin.x - zoom * aspect`, column `w`
/// to `origin.x + zoom * aspect`, pixel row 0 (the top) to
/// `origin.y + zoom`, and row `h` (the bottom) to `origin.y - zoom`.
pub proof fn lemma_screen_to_world_corners(s: State)
    requires
        s.camera_wf(),
    ensures
        rat_eqv(
            (s.stw_num_x(0), s.stw_den()),
            rat_sub(s.origin_x_rat(), rat_mul(s.zoom_rat(), s.aspect_rat())),
        ),
        rat_eqv(
            (s.stw_num_x(s.screen_width as int), s.stw_den()),
            rat_add(s.origin_x_rat(), rat_mul(s.zoom_rat(), s.aspect_rat())),
        ),
        rat_eqv((s.stw_num_y(0), s.stw_den()), rat_add(s.origin_y_rat(), s.zoom_rat())),
        rat_eqv(
            (s.stw_num_y(s.screen_height as int), s.stw_den()),
            rat_sub(s.origin_y_rat(), s.zoom_rat()),
        ),
{
    let ox = s.origin.x.raw as int;
    let oy = s.origin.y.raw as int;
    let z = s.zoom.raw as int;
    let w = s.screen_width as int;
    let h = s.screen_height as int;
    let sc = FX_SCALE as int;
    assert((ox * h + z * (2 * 0 - w)) * (sc * (sc * h))
        == (ox * (sc * h) - (z * w) * sc) * (sc * h)) by (nonlinear_arith);
    assert((ox * h + z * (2 * w - w)) * (sc * (sc * h))
        == (ox * (sc * h) + (z * w) * sc) * (sc * h)) by (nonlinear_arith);
    assert((oy * h + z * (h - 2 * 0)) * (sc * sc) == (oy * sc + z * sc) * (sc * h))
        by (nonlinear_arith);
    assert((oy * h + z * (h - 2 * h)) * (sc * sc) == (oy * sc - z * sc) * (sc * h))
        by (nonlinear_arith);
}

/// For even screen dimensions the center pixel `(w/2, h/2)` maps
/// exactly to the camera origin.
pub proof fn lemma_screen_to_world_center(s: State)
    requires
        s.camera_wf(),
        s.screen_width % 2 == 0,
        s.screen_height % 2 == 0,
    ensures
        rat_eqv((s.stw_num_x(s.screen_width as int / 2), s.stw_den()), s.origin_x_rat()),
        rat_eqv((s.stw_num_y(s.screen_height as int / 2), s.stw_den()), s.origin_y_rat()),
{
    let ox = s.origin.x.raw as int;
    let oy = s.origin.y.raw as int;
    let z = s.zoom.raw as int;
    let w = s.screen_width as int;
    let h = s.screen_height as int;
    let sc = FX_SCALE as int;
    assert(2 * (w / 2) - w == 0);
    assert(h - 2 * (h / 2) == 0);
    assert((ox * h + z * 0) * sc == ox * (sc * h)) by (nonlinear_arith);
    assert((oy * h + z * 0) * sc == oy * (sc * h)) by (nonlinear_arith);
}

} // verus!
