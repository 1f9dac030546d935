//! Fixed-point scalar helpers.
//!
//! Scalars are carried as `i64` micro-units: one whole unit is `SCALE`.
//! The decimal scale keeps the configuration constants of the sandbox
//! (zoom speed 0.1, drift step 0.01, ...) exactly representable.

use vstd::prelude::*;

verus! {

/// Number of micro-units in one whole unit.
pub const SCALE: i64 = 1_000_000;

/// A point or vector with micro-unit coordinates.
#[derive(Clone, Copy, Debug, PartialEq, Eq, Structural)]
pub struct V3 {
    pub x: i64,
    pub y: i64,
    pub z: i64,
}

/// Clamp `x` into `[lo, hi]`.
pub open spec fn clamp_i(x: int, lo: int, hi: int) -> int {
    if x < lo {
        lo
    } else if x > hi {
        hi
    } else {
        x
    }
}

/// Integer division truncating toward zero, for a positive divisor.
/// This is the meaning of Rust's `/` on signed operands.
pub open spec fn div_trunc(a: int, b: int) -> int
    recommends
        b > 0,
{
    if a >= 0 {
        a / b
    } else {
        -((-a) / b)
    }
}

pub fn clamp64(x: i64, lo: i64, hi: i64) -> (r: i64)
    requires
        lo <= hi,
    ensures
        r == clamp_i(x as int, lo as int, hi as int),
{
    if x < lo {
        lo
    } else if x > hi {
        hi
    } else {
        x
    }
}

pub fn div_trunc64(a: i64, b: i64) -> (r: i64)
    requires
        b > 0,
        a != i64::MIN,
    ensures
        r == div_trunc(a as int, b as int),
{
    if a >= 0 {
        a / b
    } else {
        -((-a) / b)
    }
}

/// Division of a nonnegative value by `b > 0` stays below any `bound`
/// whose product with `b` dominates the dividend.
pub proof fn lemma_div_le(a: int, b: int, bound: int)
    requires
        b > 0,
        0 <= a <= bound * b,
    ensures
        0 <= a / b <= bound,
{
    vstd::arithmetic::div_mod::lemma_fundamental_div_mod(a, b);
    assert(0 <= a / b <= bound) by (nonlinear_arith)
        requires
            b > 0,
            0 <= a <= bound * b,
            a == b * (a / b) + a % b,
            0 <= a % b < b,
    ;
}

/// `div_trunc` never grows past a bound that dominates the dividend.
pub proof fn lemma_div_trunc_bound(a: int, b: int, bound: int)
    requires
        b > 0,
        0 <= bound,
        -(bound * b) <= a <= bound * b,
    ensures
        -bound <= div_trunc(a, b) <= bound,
{
    if a >= 0 {
        lemma_div_le(a, b, bound);
    } else {
        lemma_div_le(-a, b, bound);
    }
}

/// Truncating division recovers the factor of an exact multiple.
pub proof fn lemma_div_trunc_multiple(x: int, d: int)
    requires
        d > 0,
    ensures
        div_trunc(d * x, d) == x,
{
    if x >= 0 {
        vstd::arithmetic::div_mod::lemma_div_multiples_vanish(x, d);
    } else {
        vstd::arithmetic::div_mod::lemma_div_multiples_vanish(-x, d);
        assert(-(d * x) == d * (-x)) by (nonlinear_arith);
    }
}

/// The remainder `a - b * div_trunc(a, b)` has magnitude below the divisor
/// and the sign of the dividend.
pub proof fn lemma_div_trunc_remainder(a: int, b: int)
    requires
        b > 0,
    ensures
        -b < a - b * div_trunc(a, b) < b,
{
    if a >= 0 {
        vstd::arithmetic::div_mod::lemma_fundamental_div_mod(a, b);
    } else {
        vstd::arithmetic::div_mod::lemma_fundamental_div_mod(-a, b);
        assert(b * (-((-a) / b)) == -(b * ((-a) / b))) by (nonlinear_arith);
    }
}

/// Bound on a product from bounds on its factors.
pub proof fn lemma_abs_mul(a: int, b: int, ab: int, bb: int)
    requires
        -ab <= a <= ab,
        -bb <= b <= bb,
    ensures
        -(ab * bb) <= a * b <= ab * bb,
{
    assert(-(ab * bb) <= a * b <= ab * bb) by (nonlinear_arith)
        requires
            -ab <= a <= ab,
            -bb <= b <= bb,
    ;
}

/// A value whose square is dominated by `m * m` lies in `[-m, m]`.
pub proof fn lemma_sq_le(c: int, m: int)
    requires
        0 <= m,
        c * c <= m * m,
    ensures
        -m <= c <= m,
{
    assert(-m <= c <= m) by (nonlinear_arith)
        requires
            0 <= m,
            c * c <= m * m,
    ;
}

/// Floor of the square root, as a mathematical function.
pub open spec fn sqrt_floor(n: nat) -> nat
    decreases n,
{
    if n == 0 {
        0
    } else {
        let p = sqrt_floor((n - 1) as nat);
        if (p + 1) * (p + 1) <= n {
            p + 1
        } else {
            p
        }
    }
}

pub proof fn lemma_sqrt_floor_bounds(n: nat)
    ensures
        sqrt_floor(n) * sqrt_floor(n) <= n < (sqrt_floor(n) + 1) * (sqrt_floor(n) + 1),
    decreases n,
{
    if n == 0 {
        assert(sqrt_floor(n) == 0);
        assert((0 + 1) * (0 + 1) == 1) by (nonlinear_arith);
    } else {
        lemma_sqrt_floor_bounds((n - 1) as nat);
        let p = sqrt_floor((n - 1) as nat);
        let s = sqrt_floor(n);
        if (p + 1) * (p + 1) <= n {
            assert(s == p + 1);
            assert((p + 2) * (p + 2) > (p + 1) * (p + 1)) by (nonlinear_arith)
                requires
                    p >= 0,
            ;
            assert(n <= (p + 1) * (p + 1));
            assert((s + 1) * (s + 1) == (p + 2) * (p + 2)) by (nonlinear_arith)
                requires
                    s == p + 1,
            ;
            assert(s * s <= n < (s + 1) * (s + 1));
        } else {
            assert(s == p);
            assert(s * s <= n < (s + 1) * (s + 1));
        }
    }
}

/// The bounds `r * r <= n < (r + 1) * (r + 1)` identify `sqrt_floor(n)`.
pub proof fn lemma_sqrt_floor_unique(n: nat, r: nat)
    requires
        r * r <= n < (r + 1) * (r + 1),
    ensures
        r == sqrt_floor(n),
{
    lemma_sqrt_floor_bounds(n);
    let s = sqrt_floor(n);
    if r < s {
        assert((r + 1) * (r + 1) <= s * s) by (nonlinear_arith)
            requires
                0 <= r < s,
        ;
    } else if s < r {
        assert((s + 1) * (s + 1) <= r * r) by (nonlinear_arith)
            requires
                0 <= s < r,
        ;
    }
}

/// Floor of the square root: the unique `r` with `r * r <= n < (r + 1) * (r + 1)`.
pub fn isqrt64(n: u64) -> (r: u64)
    ensures
        r * r <= n < (r + 1) * (r + 1),
        r == sqrt_floor(n as nat),
{
    let mut lo: u64 = 0;
    let mut hi: u64 = 0x1_0000_0000;
    assert(n < hi * hi) by (nonlinear_arith)
        requires
            n <= u64::MAX && hi == 0x1_0000_0000u64,
    ;
    while lo + 1 < hi
        invariant
            lo < hi <= 0x1_0000_0000,
            lo * lo <= n,
            n < hi * hi,
        decreases hi - lo,
    {
        let mid = lo + (hi - lo) / 2;
        assert(mid * mid <= u64::MAX) by (nonlinear_arith)
            requires
                mid < 0x1_0000_0000,
        ;
        if mid * mid <= n {
            lo = mid;
        } else {
            hi = mid;
        }
    }
    proof {
        lemma_sqrt_floor_unique(n as nat, lo as nat);
    }
    lo
}

} // verus!
