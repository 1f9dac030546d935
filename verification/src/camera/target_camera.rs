//! The orbit camera: target point, clamped distance, quaternion orientation,
//! aspect ratio and movement flags, with exact fixed-point transitions.

use crate::camera::{DIST_LIMIT, TARGET_MAX};
use crate::math::{clamp_i, clamp64, div_trunc, div_trunc64, lemma_abs_mul,
    lemma_div_trunc_bound, SCALE, V3};
use crate::matrix::{view_frame_ok, Mat4, Row4};
use crate::quat::{lemma_compose_nondegenerate, lemma_renorm_succeeds, lemma_wf_component_bounds,
    norm_sq, qmul, quat_identity, quat_identity_spec, quat_mul, quat_norm_sq, quat_renormalize,
    quat_wf, renorm, rot_entries, rot_xx, rot_xy, rot_xz, rot_yx, rot_yy, rot_yz, rot_zx, rot_zy,
    rot_zz, rotate_vec, rotate_vec_spec, Quat, QS};
use vstd::prelude::*;

verus! {

/// Default zoom range: one tenth of a unit up to one hundred units.
pub const DEFAULT_MIN_DISTANCE: i64 = 100_000;

pub const DEFAULT_MAX_DISTANCE: i64 = 100_000_000;

/// Default zoom step per wheel notch: a tenth of a unit.
pub const DEFAULT_ZOOM_SPEED: i64 = 100_000;

/// Default rotation sensitivity per pixel of mouse motion.
pub const DEFAULT_ROT_SPEED: i64 = 64;

/// Default pan speed per tick: five hundredths of a unit.
pub const DEFAULT_MOVE_SPEED: i64 = 50_000;

/// Largest zoom or pan speed a camera may be configured with.
pub const SPEED_LIMIT: i64 = 1_000_000;

/// Largest rotation sensitivity a camera may be configured with.
pub const ROT_SPEED_LIMIT: i64 = 1_024;

/// Half-angle parameters of one rotation step are clamped to `QS / 4`.
pub const ROT_CLAMP: i64 = 16_384;

/// Directional movement requested by held keys, plus the speed modifier.
#[derive(Clone, Copy, Debug, PartialEq, Eq, Structural)]
pub struct MovementFlags {
    pub forward: bool,
    pub backward: bool,
    pub left: bool,
    pub right: bool,
    pub up: bool,
    pub down: bool,
    pub faster: bool,
}

pub open spec fn no_movement() -> MovementFlags {
    MovementFlags {
        forward: false,
        backward: false,
        left: false,
        right: false,
        up: false,
        down: false,
        faster: false,
    }
}

pub struct TargetCamera {
    pub target: V3,
    pub distance: i64,
    pub rotation: Quat,
    pub min_distance: i64,
    pub max_distance: i64,
    pub aspect_w: i64,
    pub aspect_h: i64,
    pub flags: MovementFlags,
    pub zoom_speed: i64,
    pub rot_speed: i64,
    pub move_speed: i64,
}

impl TargetCamera {
    pub open spec fn wf(self) -> bool {
        &&& 0 <= self.min_distance <= self.max_distance <= DIST_LIMIT
        &&& self.min_distance <= self.distance <= self.max_distance
        &&& quat_wf(self.rotation)
        &&& -TARGET_MAX <= self.target.x <= TARGET_MAX
        &&& -TARGET_MAX <= self.target.y <= TARGET_MAX
        &&& -TARGET_MAX <= self.target.z <= TARGET_MAX
        &&& 0 <= self.aspect_w <= 2_147_483_647
        &&& 1 <= self.aspect_h <= 2_147_483_647
        &&& 0 <= self.zoom_speed <= SPEED_LIMIT
        &&& 0 <= self.rot_speed <= ROT_SPEED_LIMIT
        &&& 0 <= self.move_speed <= SPEED_LIMIT
    }

    /// The exact state a fresh camera starts in: origin target, clamped
    /// distance, identity orientation, square aspect, no movement, default
    /// speeds.
    pub open spec fn initial_spec(initial_distance: int) -> TargetCamera {
        TargetCamera {
            target: V3 { x: 0, y: 0, z: 0 },
            distance: clamp_i(
                initial_distance,
                DEFAULT_MIN_DISTANCE as int,
                DEFAULT_MAX_DISTANCE as int,
            ) as i64,
            rotation: quat_identity_spec(),
            min_distance: DEFAULT_MIN_DISTANCE,
            max_distance: DEFAULT_MAX_DISTANCE,
            aspect_w: 1,
            aspect_h: 1,
            flags: no_movement(),
            zoom_speed: DEFAULT_ZOOM_SPEED,
            rot_speed: DEFAULT_ROT_SPEED,
            move_speed: DEFAULT_MOVE_SPEED,
        }
    }

    /// The tilt parameter is accepted but unused: the camera starts with the
    /// identity orientation.
    pub fn new(_initial_tilt: i64, initial_distance: i64) -> (c: TargetCamera)
        ensures
            c == Self::initial_spec(initial_distance as int),
            c.wf(),
    {
        TargetCamera {
            target: V3 { x: 0, y: 0, z: 0 },
            distance: clamp64(initial_distance, DEFAULT_MIN_DISTANCE, DEFAULT_MAX_DISTANCE),
            rotation: quat_identity(),
            min_distance: DEFAULT_MIN_DISTANCE,
            max_distance: DEFAULT_MAX_DISTANCE,
            aspect_w: 1,
            aspect_h: 1,
            flags: MovementFlags {
                forward: false,
                backward: false,
                left: false,
                right: false,
                up: false,
                down: false,
                faster: false,
            },
            zoom_speed: DEFAULT_ZOOM_SPEED,
            rot_speed: DEFAULT_ROT_SPEED,
            move_speed: DEFAULT_MOVE_SPEED,
        }
    }

    /// Successor state of one zoom event with signed wheel delta `y`.
    pub open spec fn zoom_step(self, y: int) -> TargetCamera {
        TargetCamera {
            distance: clamp_i(
                self.distance - y * self.zoom_speed,
                self.min_distance as int,
                self.max_distance as int,
            ) as i64,
            ..self
        }
    }

    /// Zoom: move toward or away from the target, never past the configured
    /// range and never through the target.
    pub fn zoom(&mut self, y: i32)
        requires
            old(self).wf(),
        ensures
            *final(self) == old(self).zoom_step(y as int),
            final(self).wf(),
    {
        proof {
            lemma_abs_mul(y as int, self.zoom_speed as int, 2_147_483_648, SPEED_LIMIT as int);
        }
        let dz: i64 = (y as i64) * self.zoom_speed;
        self.distance = clamp64(self.distance - dz, self.min_distance, self.max_distance);
    }

    /// The composition one rotate event builds: the orientation, a yaw
    /// increment about the local up axis, and a pitch increment about the
    /// local right axis, with both half-angle parameters clamped.
    pub open spec fn rotate_composed(self, dx: int, dy: int) -> Quat {
        let ty = clamp_i(dx * self.rot_speed, -ROT_CLAMP as int, ROT_CLAMP as int);
        let tp = clamp_i(dy * self.rot_speed, -ROT_CLAMP as int, ROT_CLAMP as int);
        let gy = Quat { w: QS, x: 0, y: ty as i64, z: 0 };
        let gp = Quat { w: QS, x: tp as i64, y: 0, z: 0 };
        qmul(qmul(self.rotation, gy), gp)
    }

    /// Successor state of one rotate event with mouse deltas `(dx, dy)`:
    /// compose, then renormalize. A degenerate or out-of-tolerance
    /// renormalization leaves the orientation unchanged.
    pub open spec fn rotate_step(self, dx: int, dy: int) -> TargetCamera {
        match renorm(self.rotate_composed(dx, dy)) {
            Option::Some(r) => TargetCamera { rotation: r, ..self },
            Option::None => self,
        }
    }

    pub fn rotate(&mut self, dx: i32, dy: i32)
        requires
            old(self).wf(),
        ensures
            *final(self) == old(self).rotate_step(dx as int, dy as int),
            final(self).wf(),
    {
        proof {
            lemma_abs_mul(dx as int, self.rot_speed as int, 2_147_483_648, ROT_SPEED_LIMIT as int);
            lemma_abs_mul(dy as int, self.rot_speed as int, 2_147_483_648, ROT_SPEED_LIMIT as int);
            lemma_wf_component_bounds(self.rotation);
        }
        let ty = clamp64((dx as i64) * self.rot_speed, -ROT_CLAMP, ROT_CLAMP);
        let tp = clamp64((dy as i64) * self.rot_speed, -ROT_CLAMP, ROT_CLAMP);
        let gy = Quat { w: QS, x: 0, y: ty, z: 0 };
        let gp = Quat { w: QS, x: tp, y: 0, z: 0 };
        let c1 = quat_mul(&self.rotation, &gy);
        proof {
            let a = self.rotation;
            lemma_abs_mul(a.w as int, ty as int, 65_568, ROT_CLAMP as int);
            lemma_abs_mul(a.x as int, ty as int, 65_568, ROT_CLAMP as int);
            lemma_abs_mul(a.y as int, ty as int, 65_568, ROT_CLAMP as int);
            lemma_abs_mul(a.z as int, ty as int, 65_568, ROT_CLAMP as int);
            lemma_div_trunc_bound(
                a.w * gy.w - a.x * gy.x - a.y * gy.y - a.z * gy.z,
                QS as int,
                82_000,
            );
            lemma_div_trunc_bound(
                a.w * gy.x + a.x * gy.w + a.y * gy.z - a.z * gy.y,
                QS as int,
                82_000,
            );
            lemma_div_trunc_bound(
                a.w * gy.y - a.x * gy.z + a.y * gy.w + a.z * gy.x,
                QS as int,
                82_000,
            );
            lemma_div_trunc_bound(
                a.w * gy.z + a.x * gy.y - a.y * gy.x + a.z * gy.w,
                QS as int,
                82_000,
            );
        }
        let c2 = quat_mul(&c1, &gp);
        proof {
            lemma_abs_mul(c1.w as int, tp as int, 82_000, ROT_CLAMP as int);
            lemma_abs_mul(c1.x as int, tp as int, 82_000, ROT_CLAMP as int);
            lemma_abs_mul(c1.y as int, tp as int, 82_000, ROT_CLAMP as int);
            lemma_abs_mul(c1.z as int, tp as int, 82_000, ROT_CLAMP as int);
            lemma_div_trunc_bound(
                c1.w * gp.w - c1.x * gp.x - c1.y * gp.y - c1.z * gp.z,
                QS as int,
                102_500,
            );
            lemma_div_trunc_bound(
                c1.w * gp.x + c1.x * gp.w + c1.y * gp.z - c1.z * gp.y,
                QS as int,
                102_500,
            );
            lemma_div_trunc_bound(
                c1.w * gp.y - c1.x * gp.z + c1.y * gp.w + c1.z * gp.x,
                QS as int,
                102_500,
            );
            lemma_div_trunc_bound(
                c1.w * gp.z + c1.x * gp.y - c1.y * gp.x + c1.z * gp.w,
                QS as int,
                102_500,
            );
        }
        match quat_renormalize(&c2) {
            Option::Some(nq) => {
                self.rotation = nq;
            },
            Option::None => {},
        }
    }

    /// Pan speed for one tick: tripled while the modifier is held.
    pub open spec fn tick_speed(self) -> int {
        if self.flags.faster {
            3 * self.move_speed
        } else {
            self.move_speed as int
        }
    }

    /// Signed contribution of a pair of opposing flags: held against each
    /// other (or not at all) they cancel.
    pub open spec fn dir_component(pos: bool, neg: bool, s: int) -> int {
        if pos == neg {
            0
        } else if pos {
            s
        } else {
            -s
        }
    }

    /// Pan direction for one tick, in the camera's local frame: `x` right,
    /// `y` up, `z` backward.
    pub open spec fn tick_dir(self) -> V3 {
        V3 {
            x: Self::dir_component(self.flags.right, self.flags.left, self.tick_speed()) as i64,
            y: Self::dir_component(self.flags.up, self.flags.down, self.tick_speed()) as i64,
            z: Self::dir_component(
                self.flags.backward,
                self.flags.forward,
                self.tick_speed(),
            ) as i64,
        }
    }

    /// Successor state of one movement-integration tick: the local direction
    /// is rotated into the world frame and added to the target, each
    /// coordinate saturating at the world bound.
    pub open spec fn move_step(self) -> TargetCamera {
        let w = rotate_vec_spec(self.rotation, self.tick_dir());
        TargetCamera {
            target: V3 {
                x: clamp_i(self.target.x + w.x, -TARGET_MAX as int, TARGET_MAX as int) as i64,
                y: clamp_i(self.target.y + w.y, -TARGET_MAX as int, TARGET_MAX as int) as i64,
                z: clamp_i(self.target.z + w.z, -TARGET_MAX as int, TARGET_MAX as int) as i64,
            },
            ..self
        }
    }

    /// Integrate the held movement flags for one tick.
    pub fn tick_movement(&mut self)
        requires
            old(self).wf(),
        ensures
            *final(self) == old(self).move_step(),
            final(self).wf(),
    {
        let speed: i64 = if self.flags.faster {
            3 * self.move_speed
        } else {
            self.move_speed
        };
        let mut vx: i64 = 0;
        let mut vy: i64 = 0;
        let mut vz: i64 = 0;
        if self.flags.right {
            vx = vx + speed;
        }
        if self.flags.left {
            vx = vx - speed;
        }
        if self.flags.up {
            vy = vy + speed;
        }
        if self.flags.down {
            vy = vy - speed;
        }
        if self.flags.backward {
            vz = vz + speed;
        }
        if self.flags.forward {
            vz = vz - speed;
        }
        let v = V3 { x: vx, y: vy, z: vz };
        assert(v == self.tick_dir());
        let w = rotate_vec(&self.rotation, &v);
        self.target = V3 {
            x: clamp64(self.target.x + w.x, -TARGET_MAX, TARGET_MAX),
            y: clamp64(self.target.y + w.y, -TARGET_MAX, TARGET_MAX),
            z: clamp64(self.target.z + w.z, -TARGET_MAX, TARGET_MAX),
        };
    }

    /// Record a new drawable size. The width is kept as is and the height is
    /// clamped to at least one unit, so the stored aspect ratio is exactly
    /// `w / max(h, 1)` and a zero-sized window cannot divide by zero.
    pub fn resize(&mut self, w: i32, h: i32)
        requires
            old(self).wf(),
            w >= 0,
        ensures
            *final(self) == (TargetCamera {
                aspect_w: w as i64,
                aspect_h: if h < 1 {
                    1
                } else {
                    h as i64
                },
                ..*old(self)
            }),
            final(self).wf(),
    {
        self.aspect_w = w as i64;
        self.aspect_h = if h < 1 {
            1
        } else {
            h as i64
        };
    }

    /// The stored aspect ratio as the exact pair (width, max(height, 1)).
    pub fn aspect_ratio(&self) -> (a: (i64, i64))
        ensures
            a.0 == self.aspect_w,
            a.1 == self.aspect_h,
    {
        (self.aspect_w, self.aspect_h)
    }

    /// Inverse of "translate to the target, apply the orientation, then back
    /// off along local z by the distance": the linear part is the transposed
    /// rotation matrix of the orientation and the translation undoes what
    /// that part does to the target, backing away by the distance.
    pub fn get_view_matrix(&self) -> (m: Mat4)
        requires
            self.wf(),
        ensures
            view_frame_ok(m, self.target, self.distance),
            view_linear_ok(m, self.rotation),
    {
        proof {
            lemma_wf_component_bounds(self.rotation);
        }
        let e = rot_entries(&self.rotation);
        let n2 = quat_norm_sq(&self.rotation);
        proof {
            lemma_div_trunc_bound(e.xx * SCALE, n2 as int, SCALE as int);
            lemma_div_trunc_bound(e.xy * SCALE, n2 as int, SCALE as int);
            lemma_div_trunc_bound(e.xz * SCALE, n2 as int, SCALE as int);
            lemma_div_trunc_bound(e.yx * SCALE, n2 as int, SCALE as int);
            lemma_div_trunc_bound(e.yy * SCALE, n2 as int, SCALE as int);
            lemma_div_trunc_bound(e.yz * SCALE, n2 as int, SCALE as int);
            lemma_div_trunc_bound(e.zx * SCALE, n2 as int, SCALE as int);
            lemma_div_trunc_bound(e.zy * SCALE, n2 as int, SCALE as int);
            lemma_div_trunc_bound(e.zz * SCALE, n2 as int, SCALE as int);
        }
        let m00 = div_trunc64(e.xx * SCALE, n2);
        let m01 = div_trunc64(e.yx * SCALE, n2);
        let m02 = div_trunc64(e.zx * SCALE, n2);
        let m10 = div_trunc64(e.xy * SCALE, n2);
        let m11 = div_trunc64(e.yy * SCALE, n2);
        let m12 = div_trunc64(e.zy * SCALE, n2);
        let m20 = div_trunc64(e.xz * SCALE, n2);
        let m21 = div_trunc64(e.yz * SCALE, n2);
        let m22 = div_trunc64(e.zz * SCALE, n2);
        let t = self.target;
        proof {
            lemma_abs_mul(m00 as int, t.x as int, SCALE as int, TARGET_MAX as int);
            lemma_abs_mul(m01 as int, t.y as int, SCALE as int, TARGET_MAX as int);
            lemma_abs_mul(m02 as int, t.z as int, SCALE as int, TARGET_MAX as int);
            lemma_abs_mul(m10 as int, t.x as int, SCALE as int, TARGET_MAX as int);
            lemma_abs_mul(m11 as int, t.y as int, SCALE as int, TARGET_MAX as int);
            lemma_abs_mul(m12 as int, t.z as int, SCALE as int, TARGET_MAX as int);
            lemma_abs_mul(m20 as int, t.x as int, SCALE as int, TARGET_MAX as int);
            lemma_abs_mul(m21 as int, t.y as int, SCALE as int, TARGET_MAX as int);
            lemma_abs_mul(m22 as int, t.z as int, SCALE as int, TARGET_MAX as int);
            lemma_div_trunc_bound(
                m00 * t.x + m01 * t.y + m02 * t.z,
                SCALE as int,
                3 * TARGET_MAX as int,
            );
            lemma_div_trunc_bound(
                m10 * t.x + m11 * t.y + m12 * t.z,
                SCALE as int,
                3 * TARGET_MAX as int,
            );
            lemma_div_trunc_bound(
                m20 * t.x + m21 * t.y + m22 * t.z,
                SCALE as int,
                3 * TARGET_MAX as int,
            );
        }
        let tw0 = -div_trunc64(m00 * t.x + m01 * t.y + m02 * t.z, SCALE);
        let tw1 = -div_trunc64(m10 * t.x + m11 * t.y + m12 * t.z, SCALE);
        let tw2 = -div_trunc64(m20 * t.x + m21 * t.y + m22 * t.z, SCALE) - self.distance;
        Mat4 {
            r0: Row4 { x: m00, y: m01, z: m02, w: tw0 },
            r1: Row4 { x: m10, y: m11, z: m12, w: tw1 },
            r2: Row4 { x: m20, y: m21, z: m22, w: tw2 },
            r3: Row4 { x: 0, y: 0, z: 0, w: SCALE },
        }
    }

    /// Orthographic projection: the x half-extent `45` is scaled by the
    /// stored aspect ratio, the y half-extent is `35`, and the near/far
    /// planes sit at `0` and `10`; geometry outside `[near, far]` along view
    /// z is clipped, not faded.
    pub fn get_p_matrix(&self) -> (m: Mat4)
        requires
            self.wf(),
        ensures
            m.r0.x == div_trunc(SCALE * self.aspect_h, 45 * self.aspect_w_floor()),
            m.r0.y == 0 && m.r0.z == 0 && m.r0.w == 0,
            m.r1.x == 0 && m.r1.y == div_trunc(2 * SCALE, 70) && m.r1.z == 0 && m.r1.w == 0,
            m.r2.x == 0 && m.r2.y == 0,
            m.r2.z == -div_trunc(2 * SCALE, 10),
            m.r2.w == -SCALE,
            m.r3 == (Row4 { x: 0, y: 0, z: 0, w: SCALE }),
    {
        let aw: i64 = if self.aspect_w < 1 {
            1
        } else {
            self.aspect_w
        };
        let sx = div_trunc64(SCALE * self.aspect_h, 45 * aw);
        let sy = div_trunc64(2 * SCALE, 70);
        let sz = div_trunc64(2 * SCALE, 10);
        Mat4 {
            r0: Row4 { x: sx, y: 0, z: 0, w: 0 },
            r1: Row4 { x: 0, y: sy, z: 0, w: 0 },
            r2: Row4 { x: 0, y: 0, z: -sz, w: -SCALE },
            r3: Row4 { x: 0, y: 0, z: 0, w: SCALE },
        }
    }

    /// The aspect width with zero replaced by one, as used by the projection.
    pub open spec fn aspect_w_floor(self) -> int {
        if self.aspect_w < 1 {
            1
        } else {
            self.aspect_w as int
        }
    }
}

/// Shape of the orbit camera's view matrix: its linear part is exactly the
/// transposed rotation matrix of `q`, brought to scale `SCALE` by one
/// truncating division each.
pub open spec fn view_linear_ok(m: Mat4, q: Quat) -> bool {
    let n2 = norm_sq(q);
    &&& m.r0.x == div_trunc(rot_xx(q) * SCALE, n2)
    &&& m.r0.y == div_trunc(rot_yx(q) * SCALE, n2)
    &&& m.r0.z == div_trunc(rot_zx(q) * SCALE, n2)
    &&& m.r1.x == div_trunc(rot_xy(q) * SCALE, n2)
    &&& m.r1.y == div_trunc(rot_yy(q) * SCALE, n2)
    &&& m.r1.z == div_trunc(rot_zy(q) * SCALE, n2)
    &&& m.r2.x == div_trunc(rot_xz(q) * SCALE, n2)
    &&& m.r2.y == div_trunc(rot_yz(q) * SCALE, n2)
    &&& m.r2.z == div_trunc(rot_zz(q) * SCALE, n2)
}

/// Zoom transitions folded over a whole input sequence.
pub open spec fn zoom_fold(c: TargetCamera, ys: Seq<int>) -> TargetCamera
    decreases ys.len(),
{
    if ys.len() == 0 {
        c
    } else {
        zoom_fold(c.zoom_step(ys[0]), ys.drop_first())
    }
}

/// For every sequence of zoom deltas, the distance stays within the
/// configured `[min_distance, max_distance]` range, inclusive.
pub proof fn lemma_zoom_fold_stays_in_range(c: TargetCamera, ys: Seq<int>)
    requires
        c.wf(),
    ensures
        zoom_fold(c, ys).wf(),
        zoom_fold(c, ys).min_distance == c.min_distance,
        zoom_fold(c, ys).max_distance == c.max_distance,
        c.min_distance <= zoom_fold(c, ys).distance <= c.max_distance,
    decreases ys.len(),
{
    if ys.len() > 0 {
        lemma_zoom_fold_stays_in_range(c.zoom_step(ys[0]), ys.drop_first());
    }
}

/// Rotate transitions folded over a whole input sequence of mouse deltas.
pub open spec fn rotate_fold(c: TargetCamera, ds: Seq<(int, int)>) -> TargetCamera
    decreases ds.len(),
{
    if ds.len() == 0 {
        c
    } else {
        rotate_fold(c.rotate_step(ds[0].0, ds[0].1), ds.drop_first())
    }
}

/// A rotate step never stalls: for a well-formed camera the composed
/// quaternion is never degenerate, so renormalization succeeds and the step
/// always installs the renormalized composition.
pub proof fn lemma_rotate_step_rotates(c: TargetCamera, dx: int, dy: int)
    requires
        c.wf(),
    ensures
        renorm(c.rotate_composed(dx, dy)) is Some,
        c.rotate_step(dx, dy).rotation == renorm(c.rotate_composed(dx, dy))->Some_0,
{
    let ty = clamp_i(dx * c.rot_speed, -ROT_CLAMP as int, ROT_CLAMP as int);
    let tp = clamp_i(dy * c.rot_speed, -ROT_CLAMP as int, ROT_CLAMP as int);
    lemma_compose_nondegenerate(c.rotation, ty, tp);
    lemma_renorm_succeeds(c.rotate_composed(dx, dy));
}

/// For every sequence of rotate deltas, the orientation remains a unit
/// quaternion up to the fixed tolerance after every composition.
pub proof fn lemma_rotate_fold_keeps_unit(c: TargetCamera, ds: Seq<(int, int)>)
    requires
        c.wf(),
    ensures
        rotate_fold(c, ds).wf(),
        quat_wf(rotate_fold(c, ds).rotation),
    decreases ds.len(),
{
    if ds.len() > 0 {
        lemma_rotate_fold_keeps_unit(c.rotate_step(ds[0].0, ds[0].1), ds.drop_first());
    }
}

} // verus!
