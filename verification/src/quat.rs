//! Fixed-point quaternions for the orbit camera's orientation.
//!
//! Components are carried at scale `QS`: the identity rotation is
//! `(QS, 0, 0, 0)`. A quaternion is well formed when its squared norm stays
//! within a small tolerance of `QS * QS`, the exact-unit value. Composition
//! rescales products back to `QS` and then renormalizes; a renormalization
//! whose outcome would be degenerate or out of tolerance is rejected, so the
//! well-formedness invariant is never lost.

use crate::math::{
    div_trunc, div_trunc64, isqrt64, lemma_abs_mul, lemma_div_trunc_bound,
    lemma_div_trunc_remainder, lemma_sq_le, lemma_sqrt_floor_bounds, sqrt_floor, V3,
};
use vstd::prelude::*;

verus! {

/// Quaternion scale: the component value that stands for 1.0.
pub const QS: i64 = 65536;

/// Squared norm of an exactly unit quaternion: `QS * QS`.
pub const QNORM: i64 = 4_294_967_296;

/// Tolerance on the squared norm: `QNORM / 1024`.
pub const QTOL: i64 = 4_194_304;

/// Degeneracy threshold: a squared norm under `QNORM / 4` is treated as a
/// collapsed (near-zero-length) quaternion and rejected before normalizing.
pub const QDEG: i64 = 1_073_741_824;

/// Every component of a well-formed quaternion lies in `[-QCOMP, QCOMP]`.
pub const QCOMP: i64 = 65568;

#[derive(Clone, Copy, Debug, PartialEq, Eq, Structural)]
pub struct Quat {
    pub w: i64,
    pub x: i64,
    pub y: i64,
    pub z: i64,
}

pub open spec fn norm_sq(q: Quat) -> int {
    q.w * q.w + q.x * q.x + q.y * q.y + q.z * q.z
}

/// A unit quaternion up to the fixed tolerance.
pub open spec fn quat_wf(q: Quat) -> bool {
    QNORM - QTOL <= norm_sq(q) <= QNORM + QTOL
}

pub proof fn lemma_wf_component_bounds(q: Quat)
    requires
        quat_wf(q),
    ensures
        -QCOMP <= q.w <= QCOMP,
        -QCOMP <= q.x <= QCOMP,
        -QCOMP <= q.y <= QCOMP,
        -QCOMP <= q.z <= QCOMP,
{
    assert(q.w * q.w >= 0 && q.x * q.x >= 0 && q.y * q.y >= 0 && q.z * q.z >= 0)
        by (nonlinear_arith);
    assert(QNORM + QTOL <= QCOMP * QCOMP) by (nonlinear_arith);
    lemma_sq_le(q.w as int, QCOMP as int);
    lemma_sq_le(q.x as int, QCOMP as int);
    lemma_sq_le(q.y as int, QCOMP as int);
    lemma_sq_le(q.z as int, QCOMP as int);
}

pub open spec fn quat_identity_spec() -> Quat {
    Quat { w: QS, x: 0, y: 0, z: 0 }
}

pub fn quat_identity() -> (q: Quat)
    ensures
        q == quat_identity_spec(),
        quat_wf(q),
{
    let q = Quat { w: QS, x: 0, y: 0, z: 0 };
    proof {
        assert(q.w * q.w == QNORM && q.x * q.x == 0 && q.y * q.y == 0 && q.z * q.z == 0)
            by (nonlinear_arith)
            requires
                q.w == 65536i64 && q.x == 0i64 && q.y == 0i64 && q.z == 0i64,
        ;
    }
    q
}

/// Hamilton product of two scale-`QS` quaternions, rescaled back to `QS`.
pub open spec fn qmul(a: Quat, b: Quat) -> Quat {
    Quat {
        w: div_trunc(a.w * b.w - a.x * b.x - a.y * b.y - a.z * b.z, QS as int) as i64,
        x: div_trunc(a.w * b.x + a.x * b.w + a.y * b.z - a.z * b.y, QS as int) as i64,
        y: div_trunc(a.w * b.y - a.x * b.z + a.y * b.w + a.z * b.x, QS as int) as i64,
        z: div_trunc(a.w * b.z + a.x * b.y - a.y * b.x + a.z * b.w, QS as int) as i64,
    }
}

/// Component bound under which `quat_mul` cannot overflow.
pub const QMULIN: i64 = 131_072;

pub fn quat_mul(a: &Quat, b: &Quat) -> (r: Quat)
    requires
        -QMULIN <= a.w <= QMULIN,
        -QMULIN <= a.x <= QMULIN,
        -QMULIN <= a.y <= QMULIN,
        -QMULIN <= a.z <= QMULIN,
        -QMULIN <= b.w <= QMULIN,
        -QMULIN <= b.x <= QMULIN,
        -QMULIN <= b.y <= QMULIN,
        -QMULIN <= b.z <= QMULIN,
    ensures
        r == qmul(*a, *b),
        -1_048_576 <= r.w <= 1_048_576,
        -1_048_576 <= r.x <= 1_048_576,
        -1_048_576 <= r.y <= 1_048_576,
        -1_048_576 <= r.z <= 1_048_576,
{
    proof {
        lemma_abs_mul(a.w as int, b.w as int, QMULIN as int, QMULIN as int);
        lemma_abs_mul(a.w as int, b.x as int, QMULIN as int, QMULIN as int);
        lemma_abs_mul(a.w as int, b.y as int, QMULIN as int, QMULIN as int);
        lemma_abs_mul(a.w as int, b.z as int, QMULIN as int, QMULIN as int);
        lemma_abs_mul(a.x as int, b.w as int, QMULIN as int, QMULIN as int);
        lemma_abs_mul(a.x as int, b.x as int, QMULIN as int, QMULIN as int);
        lemma_abs_mul(a.x as int, b.y as int, QMULIN as int, QMULIN as int);
        lemma_abs_mul(a.x as int, b.z as int, QMULIN as int, QMULIN as int);
        lemma_abs_mul(a.y as int, b.w as int, QMULIN as int, QMULIN as int);
        lemma_abs_mul(a.y as int, b.x as int, QMULIN as int, QMULIN as int);
        lemma_abs_mul(a.y as int, b.y as int, QMULIN as int, QMULIN as int);
        lemma_abs_mul(a.y as int, b.z as int, QMULIN as int, QMULIN as int);
        lemma_abs_mul(a.z as int, b.w as int, QMULIN as int, QMULIN as int);
        lemma_abs_mul(a.z as int, b.x as int, QMULIN as int, QMULIN as int);
        lemma_abs_mul(a.z as int, b.y as int, QMULIN as int, QMULIN as int);
        lemma_abs_mul(a.z as int, b.z as int, QMULIN as int, QMULIN as int);
    }
    let nw: i64 = a.w * b.w - a.x * b.x - a.y * b.y - a.z * b.z;
    let nx: i64 = a.w * b.x + a.x * b.w + a.y * b.z - a.z * b.y;
    let ny: i64 = a.w * b.y - a.x * b.z + a.y * b.w + a.z * b.x;
    let nz: i64 = a.w * b.z + a.x * b.y - a.y * b.x + a.z * b.w;
    proof {
        lemma_div_trunc_bound(nw as int, QS as int, 1_048_576);
        lemma_div_trunc_bound(nx as int, QS as int, 1_048_576);
        lemma_div_trunc_bound(ny as int, QS as int, 1_048_576);
        lemma_div_trunc_bound(nz as int, QS as int, 1_048_576);
    }
    Quat {
        w: div_trunc64(nw, QS),
        x: div_trunc64(nx, QS),
        y: div_trunc64(ny, QS),
        z: div_trunc64(nz, QS),
    }
}

/// Renormalization: rescale toward norm `QS`, rejecting degenerate or
/// still-out-of-tolerance outcomes.
pub open spec fn renorm(q: Quat) -> Option<Quat> {
    let n2 = norm_sq(q);
    if n2 < QDEG {
        Option::None
    } else {
        let n = sqrt_floor(n2 as nat) as int;
        let r = Quat {
            w: div_trunc(q.w * QS, n) as i64,
            x: div_trunc(q.x * QS, n) as i64,
            y: div_trunc(q.y * QS, n) as i64,
            z: div_trunc(q.z * QS, n) as i64,
        };
        if quat_wf(r) {
            Option::Some(r)
        } else {
            Option::None
        }
    }
}

/// Component bound under which `quat_renormalize` cannot overflow.
pub const QRENIN: i64 = 1_048_576;

/// Component bound under which `quat_norm_sq` cannot overflow.
pub const QNSIN: i64 = 2_097_152;

pub fn quat_norm_sq(q: &Quat) -> (n: i64)
    requires
        -QNSIN <= q.w <= QNSIN,
        -QNSIN <= q.x <= QNSIN,
        -QNSIN <= q.y <= QNSIN,
        -QNSIN <= q.z <= QNSIN,
    ensures
        n == norm_sq(*q),
        0 <= n <= 17_592_186_044_416,
{
    proof {
        lemma_abs_mul(q.w as int, q.w as int, QNSIN as int, QNSIN as int);
        lemma_abs_mul(q.x as int, q.x as int, QNSIN as int, QNSIN as int);
        lemma_abs_mul(q.y as int, q.y as int, QNSIN as int, QNSIN as int);
        lemma_abs_mul(q.z as int, q.z as int, QNSIN as int, QNSIN as int);
        assert(q.w * q.w >= 0 && q.x * q.x >= 0 && q.y * q.y >= 0 && q.z * q.z >= 0)
            by (nonlinear_arith);
    }
    q.w * q.w + q.x * q.x + q.y * q.y + q.z * q.z
}

pub fn quat_renormalize(q: &Quat) -> (r: Option<Quat>)
    requires
        -QRENIN <= q.w <= QRENIN,
        -QRENIN <= q.x <= QRENIN,
        -QRENIN <= q.y <= QRENIN,
        -QRENIN <= q.z <= QRENIN,
    ensures
        r == renorm(*q),
        r is Some ==> quat_wf(r->Some_0),
        norm_sq(*q) >= QDEG ==> r is Some,
{
    proof {
        if norm_sq(*q) >= QDEG {
            lemma_renorm_succeeds(*q);
        }
    }
    let n2 = quat_norm_sq(q);
    if n2 < QDEG {
        return Option::None;
    }
    let n_root = isqrt64(n2 as u64);
    proof {
        // norm_sq >= QDEG pins the root away from zero and from overflow.
        lemma_sqrt_floor_bounds(n2 as nat);
        let n = sqrt_floor(n2 as nat) as int;
        assert(n >= 32_768) by (nonlinear_arith)
            requires
                n >= 0,
                n2 >= QDEG,
                (n + 1) * (n + 1) > n2 as int,
                QDEG == 1_073_741_824,
        ;
        assert(n <= 4_194_304) by (nonlinear_arith)
            requires
                n >= 0,
                n * n <= n2 as int,
                n2 <= 17_592_186_044_416,
        ;
        lemma_abs_mul(q.w as int, QS as int, QRENIN as int, QS as int);
        lemma_abs_mul(q.x as int, QS as int, QRENIN as int, QS as int);
        lemma_abs_mul(q.y as int, QS as int, QRENIN as int, QS as int);
        lemma_abs_mul(q.z as int, QS as int, QRENIN as int, QS as int);
        // |q_i * QS| <= QRENIN * QS = 2^36; dividing by n >= 2^15 stays in i64.
        assert(QRENIN * QS == 2_097_152 * 32_768) by (nonlinear_arith);
        lemma_div_trunc_bound(q.w as int * QS, n, 2_097_152);
        lemma_div_trunc_bound(q.x as int * QS, n, 2_097_152);
        lemma_div_trunc_bound(q.y as int * QS, n, 2_097_152);
        lemma_div_trunc_bound(q.z as int * QS, n, 2_097_152);
    }
    let n_i: i64 = n_root as i64;
    let r = Quat {
        w: div_trunc64(q.w * QS, n_i),
        x: div_trunc64(q.x * QS, n_i),
        y: div_trunc64(q.y * QS, n_i),
        z: div_trunc64(q.z * QS, n_i),
    };
    let rn = quat_norm_sq(&r);
    if QNORM - QTOL <= rn && rn <= QNORM + QTOL {
        Option::Some(r)
    } else {
        Option::None
    }
}

/// One rescaled component: `div_trunc(c * QS, n)` squared, sandwiched
/// around `(c * QS / n)^2` by the division's remainder.
proof fn lemma_renorm_component(c: int, n: int)
    requires
        1 <= n,
        c * c < (n + 1) * (n + 1),
    ensures
        -QS <= div_trunc(c * QS, n) <= QS,
        n * n * (div_trunc(c * QS, n) * div_trunc(c * QS, n)) >= QS * QS * (c * c) - 2 * QS * (n
            * n),
        n * n * (div_trunc(c * QS, n) * div_trunc(c * QS, n)) <= QS * QS * (c * c) + 2 * QS * (n
            * n) + n * n,
{
    assert(-n <= c <= n) by (nonlinear_arith)
        requires
            n >= 0,
            c * c < (n + 1) * (n + 1),
    ;
    lemma_abs_mul(c, QS as int, n, QS as int);
    lemma_div_trunc_bound(c * QS, n, QS as int);
    lemma_div_trunc_remainder(c * QS, n);
    let r = div_trunc(c * QS, n);
    let s = c * QS - n * r;
    assert(n * n * (r * r) >= QS * QS * (c * c) - 2 * QS * (n * n) && n * n * (r * r) <= QS * QS
        * (c * c) + 2 * QS * (n * n) + n * n) by (nonlinear_arith)
        requires
            n * r == c * QS - s,
            -n < s < n,
            -n <= c <= n,
            1 <= n,
            QS == 65536i64,
    ;
}

/// Renormalization cannot fail on a nondegenerate quaternion: whenever the
/// squared norm is at least the degeneracy threshold, the rescaled
/// quaternion lands within the unit tolerance, so `renorm` returns it.
pub proof fn lemma_renorm_succeeds(q: Quat)
    requires
        QDEG <= norm_sq(q),
    ensures
        renorm(q) is Some,
{
    let n2 = norm_sq(q);
    lemma_sqrt_floor_bounds(n2 as nat);
    let n = sqrt_floor(n2 as nat) as int;
    assert(n >= 32_768) by (nonlinear_arith)
        requires
            n >= 0,
            n2 >= QDEG,
            (n + 1) * (n + 1) > n2,
            QDEG == 1_073_741_824i64,
    ;
    assert(q.w * q.w >= 0 && q.x * q.x >= 0 && q.y * q.y >= 0 && q.z * q.z >= 0)
        by (nonlinear_arith);
    lemma_renorm_component(q.w as int, n);
    lemma_renorm_component(q.x as int, n);
    lemma_renorm_component(q.y as int, n);
    lemma_renorm_component(q.z as int, n);
    let rw = div_trunc(q.w * QS, n);
    let rx = div_trunc(q.x * QS, n);
    let ry = div_trunc(q.y * QS, n);
    let rz = div_trunc(q.z * QS, n);
    let rn = rw * rw + rx * rx + ry * ry + rz * rz;
    // Summing the four component sandwiches bounds n^2 * rn around QS^2 * n2.
    assert(n * n * rn >= QS * QS * n2 - 8 * QS * (n * n) && n * n * rn <= QS * QS * n2 + 8 * QS
        * (n * n) + 4 * (n * n)) by (nonlinear_arith)
        requires
            rn == rw * rw + rx * rx + ry * ry + rz * rz,
            n2 == q.w * q.w + q.x * q.x + q.y * q.y + q.z * q.z,
            n * n * (rw * rw) >= QS * QS * (q.w * q.w) - 2 * QS * (n * n),
            n * n * (rx * rx) >= QS * QS * (q.x * q.x) - 2 * QS * (n * n),
            n * n * (ry * ry) >= QS * QS * (q.y * q.y) - 2 * QS * (n * n),
            n * n * (rz * rz) >= QS * QS * (q.z * q.z) - 2 * QS * (n * n),
            n * n * (rw * rw) <= QS * QS * (q.w * q.w) + 2 * QS * (n * n) + n * n,
            n * n * (rx * rx) <= QS * QS * (q.x * q.x) + 2 * QS * (n * n) + n * n,
            n * n * (ry * ry) <= QS * QS * (q.y * q.y) + 2 * QS * (n * n) + n * n,
            n * n * (rz * rz) <= QS * QS * (q.z * q.z) + 2 * QS * (n * n) + n * n,
    ;
    // Below: n2 >= n * n pins rn above the tolerance floor.
    assert(rn >= QS * QS - 8 * QS) by (nonlinear_arith)
        requires
            n * n * rn >= QS * QS * n2 - 8 * QS * (n * n),
            n2 >= n * n,
            n >= 1,
            QS == 65536i64,
    ;
    // Above: n2 <= n^2 + 2n and n >= 2^15 keep rn under the tolerance cap.
    assert((n + 1) * (n + 1) == n * n + 2 * n + 1) by (nonlinear_arith);
    assert(rn <= QS * QS + QTOL) by (nonlinear_arith)
        requires
            n * n * rn <= QS * QS * n2 + 8 * QS * (n * n) + 4 * (n * n),
            n2 <= n * n + 2 * n,
            n >= 32_768,
            QS == 65536i64,
            QTOL == 4_194_304i64,
    ;
    assert(QNORM - QTOL <= rn <= QNORM + QTOL);
    let r = Quat { w: rw as i64, x: rx as i64, y: ry as i64, z: rz as i64 };
    assert(norm_sq(r) == rn);
    assert(quat_wf(r));
}

/// The Brahmagupta-Fibonacci identity: a product of two sums of two squares
/// is itself a sum of two squares.
proof fn lemma_two_square(a: int, b: int, c: int, d: int)
    ensures
        (a * c - b * d) * (a * c - b * d) + (b * c + a * d) * (b * c + a * d) == (a * a + b * b) * (
        c * c + d * d),
{
    assert((a * c - b * d) * (a * c - b * d) == (a * c) * (a * c) - 2 * ((a * c) * (b * d)) + (b
        * d) * (b * d)) by (nonlinear_arith);
    assert((b * c + a * d) * (b * c + a * d) == (b * c) * (b * c) + 2 * ((b * c) * (a * d)) + (a
        * d) * (a * d)) by (nonlinear_arith);
    assert((a * c) * (b * d) == (b * c) * (a * d)) by (nonlinear_arith);
    assert((a * c) * (a * c) == (a * a) * (c * c)) by (nonlinear_arith);
    assert((b * d) * (b * d) == (b * b) * (d * d)) by (nonlinear_arith);
    assert((b * c) * (b * c) == (b * b) * (c * c)) by (nonlinear_arith);
    assert((a * d) * (a * d) == (a * a) * (d * d)) by (nonlinear_arith);
    assert((a * a + b * b) * (c * c + d * d) == (a * a) * (c * c) + (a * a) * (d * d) + (b * b) * (
    c * c) + (b * b) * (d * d)) by (nonlinear_arith);
}

/// Distributing a product over a sum, for instantiation at large terms.
proof fn lemma_add_mul(p: int, q: int, r: int)
    ensures
        (p + q) * r == p * r + q * r,
{
    assert((p + q) * r == p * r + q * r) by (nonlinear_arith);
}

/// A product of values above nonnegative floors stays above the product of
/// the floors.
proof fn lemma_mul_ge(p: int, q: int, pf: int, qf: int)
    requires
        p >= pf >= 0,
        q >= qf >= 0,
    ensures
        p * q >= pf * qf,
{
    assert(p * q >= pf * qf) by (nonlinear_arith)
        requires
            p >= pf >= 0,
            q >= qf >= 0,
    ;
}

/// Rescaling by `QS` loses at most `2 * bnd * QS` of a component's square.
proof fn lemma_scale_down_sq_lower(p: int, bnd: int)
    requires
        -bnd <= p <= bnd,
    ensures
        QS * QS * (div_trunc(p, QS as int) * div_trunc(p, QS as int)) >= p * p - 2 * bnd * QS,
{
    lemma_div_trunc_remainder(p, QS as int);
    let c = div_trunc(p, QS as int);
    let s = p - QS * c;
    assert(QS * QS * (c * c) >= p * p - 2 * bnd * QS) by (nonlinear_arith)
        requires
            QS * c == p - s,
            -QS < s < QS,
            -bnd <= p <= bnd,
            QS == 65536i64,
    ;
}

/// Composing a well-formed quaternion with one yaw and one pitch increment,
/// both with clamped half-angle parameters, can never produce a degenerate
/// quaternion: the squared norm of the composition stays far above the
/// degeneracy threshold.
#[verifier::rlimit(50)]
pub proof fn lemma_compose_nondegenerate(q: Quat, ty: int, tp: int)
    requires
        quat_wf(q),
        -16_384 <= ty <= 16_384,
        -16_384 <= tp <= 16_384,
    ensures
        norm_sq(
            qmul(
                qmul(q, Quat { w: QS, x: 0, y: ty as i64, z: 0 }),
                Quat { w: QS, x: tp as i64, y: 0, z: 0 },
            ),
        ) >= QDEG,
{
    lemma_wf_component_bounds(q);
    let gy = Quat { w: QS, x: 0, y: ty as i64, z: 0 };
    let gp = Quat { w: QS, x: tp as i64, y: 0, z: 0 };
    let aw = q.w as int;
    let ax = q.x as int;
    let ay = q.y as int;
    let az = q.z as int;
    // Exact Hamilton product with the yaw increment.
    let p1w = aw * QS - ay * ty;
    let p1x = ax * QS - az * ty;
    let p1y = aw * ty + ay * QS;
    let p1z = ax * ty + az * QS;
    lemma_abs_mul(aw, ty, QCOMP as int, 16_384);
    lemma_abs_mul(ax, ty, QCOMP as int, 16_384);
    lemma_abs_mul(ay, ty, QCOMP as int, 16_384);
    lemma_abs_mul(az, ty, QCOMP as int, 16_384);
    // |p1| <= QCOMP * (QS + 16_384) = 5_371_330_560.
    let b1: int = 5_371_330_560;
    assert(-b1 <= p1w <= b1 && -b1 <= p1x <= b1 && -b1 <= p1y <= b1 && -b1 <= p1z <= b1);
    // Norm multiplicativity, assembled from the two-square identity.
    lemma_two_square(aw, ay, QS as int, ty);
    lemma_two_square(ax, az, QS as int, ty);
    lemma_add_mul(aw * aw + ay * ay, ax * ax + az * az, QS * QS + ty * ty);
    assert(p1w * p1w + p1x * p1x + p1y * p1y + p1z * p1z == norm_sq(q) * (QS * QS + ty * ty));
    // Rescaling keeps most of the squared norm.
    lemma_scale_down_sq_lower(p1w, b1);
    lemma_scale_down_sq_lower(p1x, b1);
    lemma_scale_down_sq_lower(p1y, b1);
    lemma_scale_down_sq_lower(p1z, b1);
    let c1w = div_trunc(p1w, QS as int);
    let c1x = div_trunc(p1x, QS as int);
    let c1y = div_trunc(p1y, QS as int);
    let c1z = div_trunc(p1z, QS as int);
    let nc1 = c1w * c1w + c1x * c1x + c1y * c1y + c1z * c1z;
    assert(ty * ty >= 0) by (nonlinear_arith);
    lemma_mul_ge(norm_sq(q), QS * QS + ty * ty, (QNORM - QTOL) as int, QS * QS);
    assert(QS * QS * nc1 >= (QNORM - QTOL) * (QS * QS) - 8 * b1 * QS);
    assert(nc1 >= 4_290_000_000);
    // The rescaled components of the first composition.
    lemma_div_trunc_bound(p1w, QS as int, 82_000);
    lemma_div_trunc_bound(p1x, QS as int, 82_000);
    lemma_div_trunc_bound(p1y, QS as int, 82_000);
    lemma_div_trunc_bound(p1z, QS as int, 82_000);
    let c1 = qmul(q, gy);
    assert(q.w * gy.w - q.x * gy.x - q.y * gy.y - q.z * gy.z == p1w);
    assert(q.w * gy.x + q.x * gy.w + q.y * gy.z - q.z * gy.y == p1x);
    assert(q.w * gy.y - q.x * gy.z + q.y * gy.w + q.z * gy.x == p1y);
    assert(q.w * gy.z + q.x * gy.y - q.y * gy.x + q.z * gy.w == p1z);
    assert(c1.w == c1w && c1.x == c1x && c1.y == c1y && c1.z == c1z);
    // Exact Hamilton product with the pitch increment.
    let p2w = c1w * QS - c1x * tp;
    let p2x = c1w * tp + c1x * QS;
    let p2y = c1y * QS + c1z * tp;
    let p2z = c1z * QS - c1y * tp;
    lemma_abs_mul(c1w, tp, 82_000, 16_384);
    lemma_abs_mul(c1x, tp, 82_000, 16_384);
    lemma_abs_mul(c1y, tp, 82_000, 16_384);
    lemma_abs_mul(c1z, tp, 82_000, 16_384);
    // |p2| <= 82_000 * (QS + 16_384) = 6_717_440_000.
    let b2: int = 6_717_440_000;
    assert(-b2 <= p2w <= b2 && -b2 <= p2x <= b2 && -b2 <= p2y <= b2 && -b2 <= p2z <= b2);
    lemma_two_square(c1w, c1x, QS as int, tp);
    lemma_two_square(c1z, c1y, QS as int, tp);
    lemma_add_mul(c1w * c1w + c1x * c1x, c1z * c1z + c1y * c1y, QS * QS + tp * tp);
    assert(p2w * p2w + p2x * p2x + p2y * p2y + p2z * p2z == nc1 * (QS * QS + tp * tp));
    lemma_scale_down_sq_lower(p2w, b2);
    lemma_scale_down_sq_lower(p2x, b2);
    lemma_scale_down_sq_lower(p2y, b2);
    lemma_scale_down_sq_lower(p2z, b2);
    let c2w = div_trunc(p2w, QS as int);
    let c2x = div_trunc(p2x, QS as int);
    let c2y = div_trunc(p2y, QS as int);
    let c2z = div_trunc(p2z, QS as int);
    let nc2 = c2w * c2w + c2x * c2x + c2y * c2y + c2z * c2z;
    assert(tp * tp >= 0) by (nonlinear_arith);
    lemma_mul_ge(nc1, QS * QS + tp * tp, 4_290_000_000, QS * QS);
    assert(QS * QS * nc2 >= 4_290_000_000 * (QS * QS) - 8 * b2 * QS);
    assert(nc2 >= 4_289_000_000);
    lemma_div_trunc_bound(p2w, QS as int, 102_500);
    lemma_div_trunc_bound(p2x, QS as int, 102_500);
    lemma_div_trunc_bound(p2y, QS as int, 102_500);
    lemma_div_trunc_bound(p2z, QS as int, 102_500);
    let c2 = qmul(c1, gp);
    assert(c1.w * gp.w - c1.x * gp.x - c1.y * gp.y - c1.z * gp.z == p2w);
    assert(c1.w * gp.x + c1.x * gp.w + c1.y * gp.z - c1.z * gp.y == p2x);
    assert(c1.w * gp.y - c1.x * gp.z + c1.y * gp.w + c1.z * gp.x == p2y);
    assert(c1.w * gp.z + c1.x * gp.y - c1.y * gp.x + c1.z * gp.w == p2z);
    assert(c2.w == c2w && c2.x == c2x && c2.y == c2y && c2.z == c2z);
    assert(norm_sq(c2) == nc2);
}

/// Rotation matrix entries of `q`, at scale `norm_sq(q)`.
///
/// For a unit quaternion these are the nine entries of the standard
/// rotation matrix; dividing by the squared norm makes the formulas exact
/// for any nondegenerate quaternion.
pub open spec fn rot_xx(q: Quat) -> int {
    q.w * q.w + q.x * q.x - q.y * q.y - q.z * q.z
}

pub open spec fn rot_xy(q: Quat) -> int {
    2 * (q.x * q.y - q.w * q.z)
}

pub open spec fn rot_xz(q: Quat) -> int {
    2 * (q.x * q.z + q.w * q.y)
}

pub open spec fn rot_yx(q: Quat) -> int {
    2 * (q.x * q.y + q.w * q.z)
}

pub open spec fn rot_yy(q: Quat) -> int {
    q.w * q.w - q.x * q.x + q.y * q.y - q.z * q.z
}

pub open spec fn rot_yz(q: Quat) -> int {
    2 * (q.y * q.z - q.w * q.x)
}

pub open spec fn rot_zx(q: Quat) -> int {
    2 * (q.x * q.z - q.w * q.y)
}

pub open spec fn rot_zy(q: Quat) -> int {
    2 * (q.y * q.z + q.w * q.x)
}

pub open spec fn rot_zz(q: Quat) -> int {
    q.w * q.w - q.x * q.x - q.y * q.y + q.z * q.z
}

/// Every rotation matrix entry is dominated by the squared norm.
pub proof fn lemma_rot_entries_bounded(q: Quat)
    ensures
        -norm_sq(q) <= rot_xx(q) <= norm_sq(q),
        -norm_sq(q) <= rot_xy(q) <= norm_sq(q),
        -norm_sq(q) <= rot_xz(q) <= norm_sq(q),
        -norm_sq(q) <= rot_yx(q) <= norm_sq(q),
        -norm_sq(q) <= rot_yy(q) <= norm_sq(q),
        -norm_sq(q) <= rot_yz(q) <= norm_sq(q),
        -norm_sq(q) <= rot_zx(q) <= norm_sq(q),
        -norm_sq(q) <= rot_zy(q) <= norm_sq(q),
        -norm_sq(q) <= rot_zz(q) <= norm_sq(q),
{
    let w = q.w as int;
    let x = q.x as int;
    let y = q.y as int;
    let z = q.z as int;
    assert(-(w * w + x * x + y * y + z * z) <= w * w + x * x - y * y - z * z <= w * w + x * x + y
        * y + z * z) by (nonlinear_arith);
    assert(-(w * w + x * x + y * y + z * z) <= w * w - x * x + y * y - z * z <= w * w + x * x + y
        * y + z * z) by (nonlinear_arith);
    assert(-(w * w + x * x + y * y + z * z) <= w * w - x * x - y * y + z * z <= w * w + x * x + y
        * y + z * z) by (nonlinear_arith);
    assert(-(w * w + x * x + y * y + z * z) <= 2 * (x * y - w * z) <= w * w + x * x + y * y + z
        * z) by (nonlinear_arith);
    assert(-(w * w + x * x + y * y + z * z) <= 2 * (x * y + w * z) <= w * w + x * x + y * y + z
        * z) by (nonlinear_arith);
    assert(-(w * w + x * x + y * y + z * z) <= 2 * (x * z - w * y) <= w * w + x * x + y * y + z
        * z) by (nonlinear_arith);
    assert(-(w * w + x * x + y * y + z * z) <= 2 * (x * z + w * y) <= w * w + x * x + y * y + z
        * z) by (nonlinear_arith);
    assert(-(w * w + x * x + y * y + z * z) <= 2 * (y * z - w * x) <= w * w + x * x + y * y + z
        * z) by (nonlinear_arith);
    assert(-(w * w + x * x + y * y + z * z) <= 2 * (y * z + w * x) <= w * w + x * x + y * y + z
        * z) by (nonlinear_arith);
}

/// Largest squared norm of a well-formed quaternion.
pub const QN2MAX: i64 = 4_299_161_600;

/// Component bound accepted by `rotate_vec`.
pub const VROT: i64 = 4_000_000;

/// Bound on the components `rotate_vec` returns.
pub const VROTOUT: i64 = 12_000_000;

/// Rotation of a vector by conjugation, exact up to one truncating division.
pub open spec fn rotate_vec_spec(q: Quat, v: V3) -> V3 {
    let n2 = norm_sq(q);
    V3 {
        x: div_trunc(rot_xx(q) * v.x + rot_xy(q) * v.y + rot_xz(q) * v.z, n2) as i64,
        y: div_trunc(rot_yx(q) * v.x + rot_yy(q) * v.y + rot_yz(q) * v.z, n2) as i64,
        z: div_trunc(rot_zx(q) * v.x + rot_zy(q) * v.y + rot_zz(q) * v.z, n2) as i64,
    }
}

/// The nine rotation matrix entries of a well-formed quaternion, at scale
/// `norm_sq(q)`, computed once and shared by vector rotation and the view
/// matrix.
pub struct RotEntries {
    pub xx: i64,
    pub xy: i64,
    pub xz: i64,
    pub yx: i64,
    pub yy: i64,
    pub yz: i64,
    pub zx: i64,
    pub zy: i64,
    pub zz: i64,
}

pub open spec fn rot_entries_ok(e: RotEntries, q: Quat) -> bool {
    &&& e.xx == rot_xx(q)
    &&& e.xy == rot_xy(q)
    &&& e.xz == rot_xz(q)
    &&& e.yx == rot_yx(q)
    &&& e.yy == rot_yy(q)
    &&& e.yz == rot_yz(q)
    &&& e.zx == rot_zx(q)
    &&& e.zy == rot_zy(q)
    &&& e.zz == rot_zz(q)
}

pub fn rot_entries(q: &Quat) -> (e: RotEntries)
    requires
        quat_wf(*q),
    ensures
        rot_entries_ok(e, *q),
        -norm_sq(*q) <= e.xx <= norm_sq(*q),
        -norm_sq(*q) <= e.xy <= norm_sq(*q),
        -norm_sq(*q) <= e.xz <= norm_sq(*q),
        -norm_sq(*q) <= e.yx <= norm_sq(*q),
        -norm_sq(*q) <= e.yy <= norm_sq(*q),
        -norm_sq(*q) <= e.yz <= norm_sq(*q),
        -norm_sq(*q) <= e.zx <= norm_sq(*q),
        -norm_sq(*q) <= e.zy <= norm_sq(*q),
        -norm_sq(*q) <= e.zz <= norm_sq(*q),
{
    proof {
        lemma_wf_component_bounds(*q);
        lemma_abs_mul(q.w as int, q.w as int, QCOMP as int, QCOMP as int);
        lemma_abs_mul(q.x as int, q.x as int, QCOMP as int, QCOMP as int);
        lemma_abs_mul(q.y as int, q.y as int, QCOMP as int, QCOMP as int);
        lemma_abs_mul(q.z as int, q.z as int, QCOMP as int, QCOMP as int);
        lemma_abs_mul(q.x as int, q.y as int, QCOMP as int, QCOMP as int);
        lemma_abs_mul(q.x as int, q.z as int, QCOMP as int, QCOMP as int);
        lemma_abs_mul(q.y as int, q.z as int, QCOMP as int, QCOMP as int);
        lemma_abs_mul(q.w as int, q.x as int, QCOMP as int, QCOMP as int);
        lemma_abs_mul(q.w as int, q.y as int, QCOMP as int, QCOMP as int);
        lemma_abs_mul(q.w as int, q.z as int, QCOMP as int, QCOMP as int);
        lemma_rot_entries_bounded(*q);
    }
    RotEntries {
        xx: q.w * q.w + q.x * q.x - q.y * q.y - q.z * q.z,
        xy: 2 * (q.x * q.y - q.w * q.z),
        xz: 2 * (q.x * q.z + q.w * q.y),
        yx: 2 * (q.x * q.y + q.w * q.z),
        yy: q.w * q.w - q.x * q.x + q.y * q.y - q.z * q.z,
        yz: 2 * (q.y * q.z - q.w * q.x),
        zx: 2 * (q.x * q.z - q.w * q.y),
        zy: 2 * (q.y * q.z + q.w * q.x),
        zz: q.w * q.w - q.x * q.x - q.y * q.y + q.z * q.z,
    }
}

/// Apply the rotation `q` stands for to `v`.
pub fn rotate_vec(q: &Quat, v: &V3) -> (r: V3)
    requires
        quat_wf(*q),
        -VROT <= v.x <= VROT,
        -VROT <= v.y <= VROT,
        -VROT <= v.z <= VROT,
    ensures
        r == rotate_vec_spec(*q, *v),
        -VROTOUT <= r.x <= VROTOUT,
        -VROTOUT <= r.y <= VROTOUT,
        -VROTOUT <= r.z <= VROTOUT,
{
    proof {
        lemma_wf_component_bounds(*q);
    }
    let e = rot_entries(q);
    let n2: i64 = quat_norm_sq(q);
    proof {
        lemma_abs_mul(e.xx as int, v.x as int, n2 as int, VROT as int);
        lemma_abs_mul(e.xy as int, v.y as int, n2 as int, VROT as int);
        lemma_abs_mul(e.xz as int, v.z as int, n2 as int, VROT as int);
        lemma_abs_mul(e.yx as int, v.x as int, n2 as int, VROT as int);
        lemma_abs_mul(e.yy as int, v.y as int, n2 as int, VROT as int);
        lemma_abs_mul(e.yz as int, v.z as int, n2 as int, VROT as int);
        lemma_abs_mul(e.zx as int, v.x as int, n2 as int, VROT as int);
        lemma_abs_mul(e.zy as int, v.y as int, n2 as int, VROT as int);
        lemma_abs_mul(e.zz as int, v.z as int, n2 as int, VROT as int);
    }
    let nx: i64 = e.xx * v.x + e.xy * v.y + e.xz * v.z;
    let ny: i64 = e.yx * v.x + e.yy * v.y + e.yz * v.z;
    let nz: i64 = e.zx * v.x + e.zy * v.y + e.zz * v.z;
    proof {
        lemma_div_trunc_bound(nx as int, n2 as int, VROTOUT as int);
        lemma_div_trunc_bound(ny as int, n2 as int, VROTOUT as int);
        lemma_div_trunc_bound(nz as int, n2 as int, VROTOUT as int);
    }
    V3 { x: div_trunc64(nx, n2), y: div_trunc64(ny, n2), z: div_trunc64(nz, n2) }
}

} // verus!


