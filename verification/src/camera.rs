//! Orbit cameras over exact fixed-point state.
//!
//! A camera owns a look-at target, a clamped distance, an orientation and an
//! aspect ratio, and derives view and projection matrices from them. All
//! state transitions are exact integer computations, so every contract pins
//! the successor state completely.

pub mod target_camera;

use crate::math::{clamp_i, clamp64, div_trunc, div_trunc64, lemma_div_trunc_multiple, SCALE, V3};
use crate::matrix::{view_frame_ok, Mat4, Row4};
use vstd::prelude::*;

verus! {

/// Largest magnitude a target coordinate may take; equals the point bound
/// accepted by `transform_point`.
pub const TARGET_MAX: i64 = 1_000_000_000_000;

/// Largest distance any camera may be configured with.
pub const DIST_LIMIT: i64 = 1_000_000_000_000;

/// A camera fixed behind its target along the world z axis, with a static
/// orthographic projection.
pub struct Camera {
    pub target: V3,
    pub distance: i64,
}

impl Camera {
    pub open spec fn wf(self) -> bool {
        &&& 0 <= self.distance <= DIST_LIMIT
        &&& -TARGET_MAX <= self.target.x <= TARGET_MAX
        &&& -TARGET_MAX <= self.target.y <= TARGET_MAX
        &&& -TARGET_MAX <= self.target.z <= TARGET_MAX
    }

    /// The tilt parameter is accepted but unused: this camera has no
    /// orientation to apply it to.
    pub fn new(_initial_tilt: i64, initial_distance: i64) -> (c: Camera)
        ensures
            c.target == (V3 { x: 0, y: 0, z: 0 }),
            c.distance == clamp_i(initial_distance as int, 0, DIST_LIMIT as int),
            c.wf(),
    {
        Camera {
            target: V3 { x: 0, y: 0, z: 0 },
            distance: clamp64(initial_distance, 0, DIST_LIMIT),
        }
    }

    /// Inverse of "translate to the target, then back off along z by the
    /// distance": a pure translation view matrix.
    pub fn get_view_matrix(&self) -> (m: Mat4)
        requires
            self.wf(),
        ensures
            view_frame_ok(m, self.target, self.distance),
            m.r0.x == SCALE && m.r0.y == 0 && m.r0.z == 0 && m.r0.w == -self.target.x,
            m.r1.x == 0 && m.r1.y == SCALE && m.r1.z == 0 && m.r1.w == -self.target.y,
            m.r2.x == 0 && m.r2.y == 0 && m.r2.z == SCALE,
            m.r2.w == -self.target.z - self.distance,
    {
        proof {
            lemma_div_trunc_multiple(self.target.x as int, SCALE as int);
            lemma_div_trunc_multiple(self.target.y as int, SCALE as int);
            lemma_div_trunc_multiple(self.target.z as int, SCALE as int);
        }
        Mat4 {
            r0: Row4 { x: SCALE, y: 0, z: 0, w: -self.target.x },
            r1: Row4 { x: 0, y: SCALE, z: 0, w: -self.target.y },
            r2: Row4 { x: 0, y: 0, z: SCALE, w: -self.target.z - self.distance },
            r3: Row4 { x: 0, y: 0, z: 0, w: SCALE },
        }
    }

    /// Orthographic projection over the fixed extents `[-45, 45] x [-35, 35]`
    /// with near/far planes `-1`/`1`; anything outside that box along view z
    /// is clipped, not faded.
    pub fn get_p_matrix(&self) -> (m: Mat4)
        ensures
            m.r0.x == 22_222 && m.r0.y == 0 && m.r0.z == 0 && m.r0.w == 0,
            m.r1.x == 0 && m.r1.y == 28_571 && m.r1.z == 0 && m.r1.w == 0,
            m.r2.x == 0 && m.r2.y == 0 && m.r2.z == -SCALE && m.r2.w == 0,
            m.r3 == (Row4 { x: 0, y: 0, z: 0, w: SCALE }),
            m.r0.x == div_trunc(2 * SCALE, 90),
            m.r1.y == div_trunc(2 * SCALE, 70),
            m.r2.z == -div_trunc(2 * SCALE, 2),
    {
        let sx = div_trunc64(2 * SCALE, 90);
        let sy = div_trunc64(2 * SCALE, 70);
        let sz = div_trunc64(2 * SCALE, 2);
        Mat4 {
            r0: Row4 { x: sx, y: 0, z: 0, w: 0 },
            r1: Row4 { x: 0, y: sy, z: 0, w: 0 },
            r2: Row4 { x: 0, y: 0, z: -sz, w: 0 },
            r3: Row4 { x: 0, y: 0, z: 0, w: SCALE },
        }
    }
}

} // verus!
