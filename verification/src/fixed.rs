//! Fixed-point scalar arithmetic: milli-unit scaling, truncating
//! multiply-divide, and integer square roots.
//!
//! All quantities in this crate are `i64` milli-units: a value of 1000
//! stands for one world unit, one degree or one second.

use vstd::prelude::*;

verus! {

/// Milli-units per whole unit.
pub const MILLI: i64 = 1000;

/// Absolute value of a mathematical integer.
pub open spec fn abs_val(a: int) -> int {
    if a >= 0 {
        a
    } else {
        -a
    }
}

/// Division that truncates toward zero (the rounding used throughout the
/// controller model), expressed with Euclidean `/` on the magnitude.
pub open spec fn div_trunc(a: int, d: int) -> int {
    if a >= 0 {
        a / d
    } else {
        -((-a) / d)
    }
}

/// `a * b / d`, truncated toward zero.
pub open spec fn mul_div_spec(a: int, b: int, d: int) -> int {
    div_trunc(a * b, d)
}

/// Clamp `a` into `[lo, hi]`.
pub open spec fn clamp_spec(a: int, lo: int, hi: int) -> int {
    if a < lo {
        lo
    } else if a > hi {
        hi
    } else {
        a
    }
}

/// Clamp a milli-unit value into `[lo, hi]`.
pub fn clamp_fix(a: i64, lo: i64, hi: i64) -> (r: i64)
    requires
        lo <= hi,
    ensures
        r == clamp_spec(a as int, lo as int, hi as int),
        lo <= r <= hi,
{
    if a < lo {
        lo
    } else if a > hi {
        hi
    } else {
        a
    }
}

/// `a * b / d` truncated toward zero, computed on magnitudes so that the
/// one executable division has a non-negative dividend.
pub fn mul_div(a: i64, b: i64, d: i64) -> (r: i64)
    requires
        0 < d,
        abs_val(a as int) <= i64::MAX,
        abs_val(b as int) <= i64::MAX,
        abs_val(a as int) * abs_val(b as int) <= i64::MAX,
    ensures
        r == mul_div_spec(a as int, b as int, d as int),
        abs_val(r as int) == abs_val(a as int) * abs_val(b as int) / (d as int),
        abs_val(r as int) * d <= abs_val(a as int) * abs_val(b as int),
{
    let aa: i64 = if a < 0 { -a } else { a };
    let ab: i64 = if b < 0 { -b } else { b };
    proof {
        assert(aa == abs_val(a as int) && ab == abs_val(b as int));
        assert(0 <= aa as int * ab as int) by (nonlinear_arith)
            requires
                0 <= aa,
                0 <= ab,
        ;
    }
    let p: i64 = aa * ab;
    proof {
        vstd::arithmetic::div_mod::lemma_div_pos_is_pos(p as int, d as int);
        vstd::arithmetic::div_mod::lemma_fundamental_div_mod(p as int, d as int);
        vstd::arithmetic::div_mod::lemma_mod_bound(p as int, d as int);
    }
    let q: i64 = p / d;
    proof {
        assert(q == p as int / d as int);
        assert(0 <= q);
        assert(d * q <= p);
        assert((a as int) * (b as int) == (if (a < 0) != (b < 0) {
            -(aa as int * ab as int)
        } else {
            aa as int * ab as int
        })) by (nonlinear_arith)
            requires
                (a >= 0 ==> aa == a) && (a < 0 ==> aa as int == -(a as int)),
                (b >= 0 ==> ab == b) && (b < 0 ==> ab as int == -(b as int)),
        ;
        assert(q * d <= p) by (nonlinear_arith)
            requires
                d * q <= p,
        ;
    }
    if (a < 0) != (b < 0) {
        -q
    } else {
        q
    }
}

/// Truncating division shrinks the magnitude by the divisor and keeps
/// the sign of the dividend.
pub proof fn lemma_div_trunc_props(a: int, m: int)
    requires
        0 < m,
    ensures
        abs_val(div_trunc(a, m)) == abs_val(a) / m,
        abs_val(div_trunc(a, m)) * m <= abs_val(a),
        div_trunc(a, m) * a >= 0,
{
    vstd::arithmetic::div_mod::lemma_fundamental_div_mod(abs_val(a), m);
    vstd::arithmetic::div_mod::lemma_mod_bound(abs_val(a), m);
    vstd::arithmetic::div_mod::lemma_div_pos_is_pos(abs_val(a), m);
    let q = abs_val(a) / m;
    assert(q * m <= abs_val(a)) by (nonlinear_arith)
        requires
            abs_val(a) == m * q + abs_val(a) % m,
            0 <= abs_val(a) % m,
    ;
    if a >= 0 {
        assert(div_trunc(a, m) * a >= 0) by (nonlinear_arith)
            requires
                div_trunc(a, m) >= 0,
                a >= 0,
        ;
    } else {
        assert(div_trunc(a, m) == -q && q >= 0);
        assert((-q) * a >= 0) by (nonlinear_arith)
            requires
                q >= 0,
                a < 0,
        ;
    }
}

/// Floor of the square root, as a recursive specification: the largest
/// `r` with `r * r <= n`.
pub open spec fn sqrt_floor(n: int) -> int
    decreases n,
{
    if n <= 0 {
        0
    } else {
        let r = sqrt_floor(n - 1);
        if (r + 1) * (r + 1) <= n {
            r + 1
        } else {
            r
        }
    }
}

/// Ceiling of the square root: the smallest `r >= 0` with `n <= r * r`.
pub open spec fn sqrt_ceil(n: int) -> int {
    if sqrt_floor(n) * sqrt_floor(n) == n {
        sqrt_floor(n)
    } else {
        sqrt_floor(n) + 1
    }
}

/// `sqrt_floor` is bracketed by the two neighbouring squares.
pub proof fn lemma_sqrt_floor_bounds(n: int)
    requires
        0 <= n,
    ensures
        0 <= sqrt_floor(n),
        sqrt_floor(n) * sqrt_floor(n) <= n,
        n < (sqrt_floor(n) + 1) * (sqrt_floor(n) + 1),
    decreases n,
{
    if n == 0 {
    } else {
        lemma_sqrt_floor_bounds(n - 1);
        let r = sqrt_floor(n - 1);
        assert(n - 1 < (r + 1) * (r + 1));
        if (r + 1) * (r + 1) <= n {
            assert(n - 1 < (r + 1) * (r + 1));
            assert(n < (r + 2) * (r + 2)) by (nonlinear_arith)
                requires
                    n <= (r + 1) * (r + 1),
                    0 <= r,
            ;
        }
    }
}

/// Any `r` bracketed by the neighbouring squares is `sqrt_floor(n)`.
pub proof fn lemma_sqrt_floor_unique(n: int, r: int)
    requires
        0 <= n,
        0 <= r,
        r * r <= n,
        n < (r + 1) * (r + 1),
    ensures
        r == sqrt_floor(n),
{
    lemma_sqrt_floor_bounds(n);
    let f = sqrt_floor(n);
    if r < f {
        assert((r + 1) * (r + 1) <= f * f) by (nonlinear_arith)
            requires
                0 <= r,
                r + 1 <= f,
        ;
    }
    if f < r {
        assert((f + 1) * (f + 1) <= r * r) by (nonlinear_arith)
            requires
                0 <= f,
                f + 1 <= r,
        ;
    }
}

/// `sqrt_ceil` characterised: least non-negative root bound.
pub proof fn lemma_sqrt_ceil_bounds(n: int)
    requires
        0 <= n,
    ensures
        0 <= sqrt_ceil(n),
        n <= sqrt_ceil(n) * sqrt_ceil(n),
        sqrt_ceil(n) == 0 ==> n == 0,
        sqrt_ceil(n) > 0 ==> (sqrt_ceil(n) - 1) * (sqrt_ceil(n) - 1) < n,
{
    lemma_sqrt_floor_bounds(n);
    let f = sqrt_floor(n);
    if f * f == n {
        if f == 0 {
            assert(f * f == 0) by (nonlinear_arith)
                requires
                    f == 0,
            ;
        }
        if f > 0 {
            assert((f - 1) * (f - 1) < f * f) by (nonlinear_arith)
                requires
                    0 < f,
            ;
        }
    } else {
        assert((f + 1 - 1) * (f + 1 - 1) == f * f) by (nonlinear_arith);
    }
}

/// `sqrt_ceil` is monotone.
pub proof fn lemma_sqrt_ceil_monotone(m: int, n: int)
    requires
        0 <= m <= n,
    ensures
        sqrt_ceil(m) <= sqrt_ceil(n),
{
    lemma_sqrt_ceil_bounds(m);
    lemma_sqrt_ceil_bounds(n);
    let cm = sqrt_ceil(m);
    let cn = sqrt_ceil(n);
    if cn < cm {
        assert(cn * cn <= (cm - 1) * (cm - 1)) by (nonlinear_arith)
            requires
                0 <= cn,
                cn <= cm - 1,
        ;
    }
}

/// A perfect square's ceiling root is its root.
pub proof fn lemma_sqrt_ceil_of_square(t: int)
    requires
        0 <= t,
    ensures
        sqrt_ceil(t * t) == t,
{
    assert(0 <= t * t) by (nonlinear_arith)
        requires
            0 <= t,
    ;
    lemma_sqrt_ceil_bounds(t * t);
    let c = sqrt_ceil(t * t);
    if c < t {
        assert(c * c < t * t) by (nonlinear_arith)
            requires
                0 <= c,
                c < t,
        ;
    }
    if t < c {
        assert(t * t <= (c - 1) * (c - 1)) by (nonlinear_arith)
            requires
                0 <= t,
                t <= c - 1,
        ;
    }
}

/// Floor square root by binary search.
pub fn isqrt(n: i64) -> (r: i64)
    requires
        0 <= n,
    ensures
        r == sqrt_floor(n as int),
        0 <= r <= 3_037_000_499,
        r * r <= n,
        n < (r + 1) * (r + 1),
{
    let mut lo: i64 = 0;
    let mut hi: i64 = 3_037_000_499;
    proof {
        assert((3_037_000_499int + 1) * (3_037_000_499int + 1) > i64::MAX);
    }
    while lo < hi
        invariant
            0 <= lo <= hi <= 3_037_000_499,
            lo * lo <= n,
            n < (hi + 1) * (hi + 1),
        decreases hi - lo,
    {
        let mid: i64 = lo + (hi - lo + 1) / 2;
        proof {
            assert(lo < mid <= hi);
            assert(mid * mid <= 3_037_000_499int * 3_037_000_499int) by (nonlinear_arith)
                requires
                    0 <= mid <= 3_037_000_499,
            ;
        }
        if mid * mid <= n {
            lo = mid;
        } else {
            hi = mid - 1;
        }
    }
    proof {
        lemma_sqrt_floor_unique(n as int, lo as int);
    }
    lo
}

/// Ceiling square root.
pub fn isqrt_ceil(n: i64) -> (r: i64)
    requires
        0 <= n,
    ensures
        r == sqrt_ceil(n as int),
        0 <= r <= 3_037_000_500,
        n <= r * r,
        r == 0 ==> n == 0,
        r > 0 ==> (r - 1) * (r - 1) < n,
{
    let f = isqrt(n);
    proof {
        lemma_sqrt_ceil_bounds(n as int);
    }
    if f * f == n {
        f
    } else {
        f + 1
    }
}

} // verus!
