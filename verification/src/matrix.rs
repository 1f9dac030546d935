//! Homogeneous 4x4 matrices over micro-unit fixed point.
//!
//! The three upper rows hold a linear part at scale `SCALE` in their
//! `x`/`y`/`z` entries and a translation in micro-units in `w`; the last row
//! is the homogeneous row `(0, 0, 0, SCALE)`. Applying a matrix to a point
//! divides the linear contribution by `SCALE` once, truncating toward zero.

use crate::math::{div_trunc, div_trunc64, lemma_div_trunc_bound, SCALE, V3};
use vstd::prelude::*;

verus! {

#[derive(Clone, Copy, Debug, PartialEq, Eq, Structural)]
pub struct Row4 {
    pub x: i64,
    pub y: i64,
    pub z: i64,
    pub w: i64,
}

#[derive(Clone, Copy, Debug, PartialEq, Eq, Structural)]
pub struct Mat4 {
    pub r0: Row4,
    pub r1: Row4,
    pub r2: Row4,
    pub r3: Row4,
}

/// Largest magnitude accepted for a point coordinate.
pub const PMAX: i64 = 1_000_000_000_000;

/// Largest magnitude of a translation entry.
pub const TMAX: i64 = 5_000_000_000_000;

/// Bound on the coordinates `transform_point` returns.
pub const PTOUT: i64 = 8_000_000_000_000;

/// Shape of every matrix this crate builds: linear entries within one unit,
/// translation entries bounded, homogeneous last row.
pub open spec fn mat_wf(m: Mat4) -> bool {
    &&& -SCALE <= m.r0.x <= SCALE
    &&& -SCALE <= m.r0.y <= SCALE
    &&& -SCALE <= m.r0.z <= SCALE
    &&& -SCALE <= m.r1.x <= SCALE
    &&& -SCALE <= m.r1.y <= SCALE
    &&& -SCALE <= m.r1.z <= SCALE
    &&& -SCALE <= m.r2.x <= SCALE
    &&& -SCALE <= m.r2.y <= SCALE
    &&& -SCALE <= m.r2.z <= SCALE
    &&& -TMAX <= m.r0.w <= TMAX
    &&& -TMAX <= m.r1.w <= TMAX
    &&& -TMAX <= m.r2.w <= TMAX
    &&& m.r3 == (Row4 { x: 0, y: 0, z: 0, w: SCALE })
}

pub open spec fn row_apply(r: Row4, p: V3) -> int {
    div_trunc(r.x * p.x + r.y * p.y + r.z * p.z, SCALE as int) + r.w
}

pub open spec fn transform_point_spec(m: Mat4, p: V3) -> V3 {
    V3 { x: row_apply(m.r0, p) as i64, y: row_apply(m.r1, p) as i64, z: row_apply(m.r2, p) as i64 }
}

proof fn lemma_row_apply_bounded(r: Row4, p: V3)
    requires
        -SCALE <= r.x <= SCALE,
        -SCALE <= r.y <= SCALE,
        -SCALE <= r.z <= SCALE,
        -TMAX <= r.w <= TMAX,
        -PMAX <= p.x <= PMAX,
        -PMAX <= p.y <= PMAX,
        -PMAX <= p.z <= PMAX,
    ensures
        -PTOUT <= row_apply(r, p) <= PTOUT,
        -(3 * PMAX * SCALE) <= r.x * p.x + r.y * p.y + r.z * p.z <= 3 * PMAX * SCALE,
{
    crate::math::lemma_abs_mul(r.x as int, p.x as int, SCALE as int, PMAX as int);
    crate::math::lemma_abs_mul(r.y as int, p.y as int, SCALE as int, PMAX as int);
    crate::math::lemma_abs_mul(r.z as int, p.z as int, SCALE as int, PMAX as int);
    lemma_div_trunc_bound(r.x * p.x + r.y * p.y + r.z * p.z, SCALE as int, 3 * PMAX as int);
}

fn apply_row(r: &Row4, p: &V3) -> (out: i64)
    requires
        -SCALE <= r.x <= SCALE,
        -SCALE <= r.y <= SCALE,
        -SCALE <= r.z <= SCALE,
        -TMAX <= r.w <= TMAX,
        -PMAX <= p.x <= PMAX,
        -PMAX <= p.y <= PMAX,
        -PMAX <= p.z <= PMAX,
    ensures
        out == row_apply(*r, *p),
        -PTOUT <= out <= PTOUT,
{
    proof {
        crate::math::lemma_abs_mul(r.x as int, p.x as int, SCALE as int, PMAX as int);
        crate::math::lemma_abs_mul(r.y as int, p.y as int, SCALE as int, PMAX as int);
        crate::math::lemma_abs_mul(r.z as int, p.z as int, SCALE as int, PMAX as int);
        lemma_row_apply_bounded(*r, *p);
    }
    div_trunc64(r.x * p.x + r.y * p.y + r.z * p.z, SCALE) + r.w
}

/// Shape of a view matrix looking at `target` from `distance` units away:
/// each translation entry undoes exactly what the matrix's own linear part
/// does to the target, and the z row backs away by `distance`.
pub open spec fn view_frame_ok(m: Mat4, target: V3, distance: i64) -> bool {
    &&& mat_wf(m)
    &&& m.r0.w == -div_trunc(
        m.r0.x * target.x + m.r0.y * target.y + m.r0.z * target.z,
        SCALE as int,
    )
    &&& m.r1.w == -div_trunc(
        m.r1.x * target.x + m.r1.y * target.y + m.r1.z * target.z,
        SCALE as int,
    )
    &&& m.r2.w == -div_trunc(
        m.r2.x * target.x + m.r2.y * target.y + m.r2.z * target.z,
        SCALE as int,
    ) - distance
}

/// A view matrix maps its own target to `(0, 0, -distance)`: the target sits
/// exactly `distance` units from the eye along the view axis, whatever the
/// orientation. Round-tripping through the inverse view transform therefore
/// returns a point at exactly that separation.
pub proof fn lemma_view_frame_fixes_target(m: Mat4, target: V3, distance: i64)
    requires
        view_frame_ok(m, target, distance),
        0 <= distance <= PMAX,
    ensures
        transform_point_spec(m, target).x == 0,
        transform_point_spec(m, target).y == 0,
        transform_point_spec(m, target).z == -distance,
{
    assert(row_apply(m.r0, target) == 0);
    assert(row_apply(m.r1, target) == 0);
    assert(row_apply(m.r2, target) == -distance);
}

/// Apply the matrix to a point (the homogeneous coordinate stays 1).
pub fn transform_point(m: &Mat4, p: &V3) -> (r: V3)
    requires
        mat_wf(*m),
        -PMAX <= p.x <= PMAX,
        -PMAX <= p.y <= PMAX,
        -PMAX <= p.z <= PMAX,
    ensures
        r == transform_point_spec(*m, *p),
        -PTOUT <= r.x <= PTOUT,
        -PTOUT <= r.y <= PTOUT,
        -PTOUT <= r.z <= PTOUT,
{
    V3 { x: apply_row(&m.r0, p), y: apply_row(&m.r1, p), z: apply_row(&m.r2, p) }
}

} // verus!
