//! Three-component vectors in milli-units, with squared norms and
//! magnitude-preserving rescaling.

use vstd::prelude::*;
use crate::fixed::{abs_val, div_trunc, isqrt_ceil, mul_div, sqrt_ceil};

verus! {

/// Largest component magnitude accepted by the norm routines; three such
/// squares still fit in `i64`.
pub const NORM_COMP_LIMIT: i64 = 1_700_000_000;

/// Bound on world-space position components, milli-units: the bounded
/// world the physics model integrates within.
pub const POS_LIMIT: i64 = 1_000_000_000_000_000;

/// A vector of milli-unit coordinates.
#[derive(Clone, Copy, Debug, PartialEq, Eq, Structural)]
pub struct Vec3Fix {
    pub x: i64,
    pub y: i64,
    pub z: i64,
}

/// The mathematical value of a `Vec3Fix`.
pub struct Vec3Model {
    pub x: int,
    pub y: int,
    pub z: int,
}

impl View for Vec3Fix {
    type V = Vec3Model;

    open spec fn view(&self) -> Vec3Model {
        Vec3Model { x: self.x as int, y: self.y as int, z: self.z as int }
    }
}

impl Vec3Model {
    /// Squared Euclidean norm.
    pub open spec fn norm_sq(self) -> int {
        self.x * self.x + self.y * self.y + self.z * self.z
    }

    /// Squared norm of the horizontal (ground-plane) part.
    pub open spec fn norm_sq_xz(self) -> int {
        self.x * self.x + self.z * self.z
    }

    /// All components within `lim` in magnitude.
    pub open spec fn bounded(self, lim: int) -> bool {
        abs_val(self.x) <= lim && abs_val(self.y) <= lim && abs_val(self.z) <= lim
    }
}

/// Squares are monotone on non-negative values.
pub proof fn lemma_sq_monotone(p: int, q: int)
    requires
        0 <= p <= q,
    ensures
        p * p <= q * q,
{
    assert(p * p <= q * q) by (nonlinear_arith)
        requires
            0 <= p <= q,
    ;
}

/// The square of a value equals the square of its magnitude.
pub proof fn lemma_abs_sq(a: int)
    ensures
        abs_val(a) * abs_val(a) == a * a,
{
    if a < 0 {
        assert((-a) * (-a) == a * a) by (nonlinear_arith);
    }
}

/// A square bound transfers to a magnitude bound.
pub proof fn lemma_sq_to_abs(d: int, c: int)
    requires
        d * d <= c * c,
        0 <= c,
    ensures
        abs_val(d) <= c,
{
    lemma_abs_sq(d);
    if abs_val(d) > c {
        lemma_sq_monotone(c, abs_val(d));
        assert(c * c < abs_val(d) * abs_val(d)) by (nonlinear_arith)
            requires
                0 <= c < abs_val(d),
        ;
    }
}

/// Scaled square bound for one component: from `|d| * m <= |v| * c`
/// conclude `d^2 * m^2 <= v^2 * c^2`.
proof fn lemma_scaled_sq(v: int, c: int, m: int, d: int)
    requires
        0 < m,
        0 <= c,
        abs_val(d) * m <= abs_val(v) * c,
    ensures
        (d * d) * (m * m) <= (v * v) * (c * c),
{
    let ad = abs_val(d);
    let av = abs_val(v);
    lemma_abs_sq(d);
    lemma_abs_sq(v);
    assert((ad * ad) * (m * m) <= (av * av) * (c * c)) by (nonlinear_arith)
        requires
            0 < m,
            0 <= c,
            0 <= ad,
            0 <= av,
            ad * m <= av * c,
    ;
    assert((d * d) * (m * m) == (ad * ad) * (m * m));
    assert((v * v) * (c * c) == (av * av) * (c * c));
}

/// Rescaling by `c / m` cannot grow a vector whose squared norm is at
/// most `m^2` beyond squared norm `c^2`: the core of the speed clamp.
pub proof fn lemma_scaled_norm_le(
    x: int,
    y: int,
    z: int,
    c: int,
    m: int,
    dx: int,
    dy: int,
    dz: int,
)
    requires
        0 < m,
        0 <= c,
        x * x + y * y + z * z <= m * m,
        abs_val(dx) * m <= abs_val(x) * c,
        abs_val(dy) * m <= abs_val(y) * c,
        abs_val(dz) * m <= abs_val(z) * c,
    ensures
        dx * dx + dy * dy + dz * dz <= c * c,
{
    assert(0 <= c * c) by (nonlinear_arith);
    assert(0 < m * m) by (nonlinear_arith)
        requires
            0 < m,
    ;
    lemma_scaled_sq(x, c, m, dx);
    lemma_scaled_sq(y, c, m, dy);
    lemma_scaled_sq(z, c, m, dz);
    assert((dx * dx + dy * dy + dz * dz) * (m * m) <= (x * x + y * y + z * z) * (c * c))
        by (nonlinear_arith)
        requires
            (dx * dx) * (m * m) <= (x * x) * (c * c),
            (dy * dy) * (m * m) <= (y * y) * (c * c),
            (dz * dz) * (m * m) <= (z * z) * (c * c),
    ;
    assert((x * x + y * y + z * z) * (c * c) <= (m * m) * (c * c)) by (nonlinear_arith)
        requires
            x * x + y * y + z * z <= m * m,
            0 <= c * c,
    ;
    assert(dx * dx + dy * dy + dz * dz <= c * c) by (nonlinear_arith)
        requires
            (dx * dx + dy * dy + dz * dz) * (m * m) <= (m * m) * (c * c),
            0 < m * m,
    ;
}

/// Result of rescaling `v` to magnitude at most `len`, with the ceiling
/// root of the squared norm as divisor.
pub open spec fn scale_to_norm_spec(v: Vec3Model, len: int) -> Vec3Model {
    if v.norm_sq() == 0 {
        v
    } else {
        let m = sqrt_ceil(v.norm_sq());
        Vec3Model {
            x: div_trunc(v.x * len, m),
            y: div_trunc(v.y * len, m),
            z: div_trunc(v.z * len, m),
        }
    }
}

/// A squared norm is never negative, and vanishes only on the zero
/// vector.
pub proof fn lemma_norm_sq_nonneg(v: Vec3Model)
    ensures
        v.norm_sq() >= 0,
        v.norm_sq() == 0 ==> v == (Vec3Model { x: 0, y: 0, z: 0 }),
        v.norm_sq_xz() >= 0,
{
    lemma_abs_sq(v.x);
    lemma_abs_sq(v.y);
    lemma_abs_sq(v.z);
    assert(abs_val(v.x) * abs_val(v.x) >= 0) by (nonlinear_arith);
    assert(abs_val(v.y) * abs_val(v.y) >= 0) by (nonlinear_arith);
    assert(abs_val(v.z) * abs_val(v.z) >= 0) by (nonlinear_arith);
    if v.norm_sq() == 0 {
        assert(v.x == 0 && v.y == 0 && v.z == 0) by (nonlinear_arith)
            requires
                v.x * v.x + v.y * v.y + v.z * v.z == 0,
        ;
    }
}

/// Rescaling to `len` bounds the squared norm by `len^2` and every
/// component by `len`.
pub proof fn lemma_scale_to_norm_spec_norm(v: Vec3Model, len: int)
    requires
        0 <= len,
    ensures
        scale_to_norm_spec(v, len).norm_sq() <= len * len,
        scale_to_norm_spec(v, len).bounded(len),
{
    lemma_norm_sq_nonneg(v);
    assert(0 <= len * len) by (nonlinear_arith);
    let r = scale_to_norm_spec(v, len);
    if v.norm_sq() == 0 {
        assert(r.norm_sq() == 0);
    } else {
        let m = sqrt_ceil(v.norm_sq());
        crate::fixed::lemma_sqrt_ceil_bounds(v.norm_sq());
        assert(m > 0);
        crate::fixed::lemma_div_trunc_props(v.x * len, m);
        crate::fixed::lemma_div_trunc_props(v.y * len, m);
        crate::fixed::lemma_div_trunc_props(v.z * len, m);
        assert(abs_val(v.x * len) == abs_val(v.x) * len) by (nonlinear_arith)
            requires
                0 <= len,
        ;
        assert(abs_val(v.y * len) == abs_val(v.y) * len) by (nonlinear_arith)
            requires
                0 <= len,
        ;
        assert(abs_val(v.z * len) == abs_val(v.z) * len) by (nonlinear_arith)
            requires
                0 <= len,
        ;
        lemma_scaled_norm_le(v.x, v.y, v.z, len, m, r.x, r.y, r.z);
        assert(0 <= r.y * r.y && 0 <= r.z * r.z && 0 <= r.x * r.x) by (nonlinear_arith);
        lemma_sq_to_abs(r.x, len);
        lemma_sq_to_abs(r.y, len);
        lemma_sq_to_abs(r.z, len);
    }
}

/// Sign agreement with `v * len` transfers to sign agreement with `v`.
proof fn lemma_sign_transfer(d: int, v: int, len: int) by (nonlinear_arith)
    requires
        0 <= len,
        d * (v * len) >= 0,
        len == 0 ==> d == 0,
    ensures
        d * v >= 0,
{
}

/// Rescaling never flips the sign of a component.
pub proof fn lemma_scale_to_norm_spec_signs(v: Vec3Model, len: int)
    requires
        0 <= len,
    ensures
        scale_to_norm_spec(v, len).x * v.x >= 0,
        scale_to_norm_spec(v, len).y * v.y >= 0,
        scale_to_norm_spec(v, len).z * v.z >= 0,
        v.y == 0 ==> scale_to_norm_spec(v, len).y == 0,
{
    lemma_norm_sq_nonneg(v);
    let r = scale_to_norm_spec(v, len);
    if v.norm_sq() == 0 {
        assert(r == v);
        assert(v.x * v.x >= 0 && v.y * v.y >= 0 && v.z * v.z >= 0) by (nonlinear_arith);
    } else {
        let m = sqrt_ceil(v.norm_sq());
        crate::fixed::lemma_sqrt_ceil_bounds(v.norm_sq());
        crate::fixed::lemma_div_trunc_props(v.x * len, m);
        crate::fixed::lemma_div_trunc_props(v.y * len, m);
        crate::fixed::lemma_div_trunc_props(v.z * len, m);
        if len == 0 {
            assert(v.x * len == 0 && v.y * len == 0 && v.z * len == 0) by (nonlinear_arith)
                requires
                    len == 0,
            ;
            vstd::arithmetic::div_mod::lemma_div_of0(m);
        }
        lemma_sign_transfer(r.x, v.x, len);
        lemma_sign_transfer(r.y, v.y, len);
        lemma_sign_transfer(r.z, v.z, len);
        if v.y == 0 {
            assert(v.y * len == 0) by (nonlinear_arith)
                requires
                    v.y == 0,
            ;
            vstd::arithmetic::div_mod::lemma_div_of0(m);
            assert(r.y == 0);
        }
    }
}

/// Rescale `v` so that its magnitude is at most `len`, preserving its
/// direction up to truncation; the zero vector stays zero.
pub fn scale_to_norm(v: Vec3Fix, len: i64) -> (r: Vec3Fix)
    requires
        0 <= len <= 2_000_000_000,
        v@.bounded(NORM_COMP_LIMIT as int),
    ensures
        r@ == scale_to_norm_spec(v@, len as int),
        r@.norm_sq() <= len * len,
        r@.bounded(len as int),
{
    proof {
        lemma_abs_sq(v.x as int);
        lemma_abs_sq(v.y as int);
        lemma_abs_sq(v.z as int);
        lemma_sq_monotone(abs_val(v.x as int), NORM_COMP_LIMIT as int);
        lemma_sq_monotone(abs_val(v.y as int), NORM_COMP_LIMIT as int);
        lemma_sq_monotone(abs_val(v.z as int), NORM_COMP_LIMIT as int);
    }
    let n: i64 = v.x * v.x + v.y * v.y + v.z * v.z;
    let m: i64 = isqrt_ceil(n);
    if m == 0 {
        proof {
            assert(v@.norm_sq() == 0);
            assert(len * len >= 0) by (nonlinear_arith);
            assert(v.x == 0 && v.y == 0 && v.z == 0) by (nonlinear_arith)
                requires
                    v.x * v.x + v.y * v.y + v.z * v.z == 0,
            ;
        }
        v
    } else {
        proof {
            assert(abs_val(v.x as int) * abs_val(len as int) <= NORM_COMP_LIMIT as int
                * 2_000_000_000) by (nonlinear_arith)
                requires
                    abs_val(v.x as int) <= NORM_COMP_LIMIT as int,
                    0 <= abs_val(len as int) <= 2_000_000_000,
            ;
            assert(abs_val(v.y as int) * abs_val(len as int) <= NORM_COMP_LIMIT as int
                * 2_000_000_000) by (nonlinear_arith)
                requires
                    abs_val(v.y as int) <= NORM_COMP_LIMIT as int,
                    0 <= abs_val(len as int) <= 2_000_000_000,
            ;
            assert(abs_val(v.z as int) * abs_val(len as int) <= NORM_COMP_LIMIT as int
                * 2_000_000_000) by (nonlinear_arith)
                requires
                    abs_val(v.z as int) <= NORM_COMP_LIMIT as int,
                    0 <= abs_val(len as int) <= 2_000_000_000,
            ;
        }
        let rx = mul_div(v.x, len, m);
        let ry = mul_div(v.y, len, m);
        let rz = mul_div(v.z, len, m);
        proof {
            lemma_scaled_norm_le(
                v.x as int,
                v.y as int,
                v.z as int,
                len as int,
                m as int,
                rx as int,
                ry as int,
                rz as int,
            );
            assert(0 <= rx as int * rx) by (nonlinear_arith);
            assert(0 <= ry as int * ry) by (nonlinear_arith);
            assert(0 <= rz as int * rz) by (nonlinear_arith);
            lemma_sq_to_abs(rx as int, len as int);
            lemma_sq_to_abs(ry as int, len as int);
            lemma_sq_to_abs(rz as int, len as int);
        }
        Vec3Fix { x: rx, y: ry, z: rz }
    }
}

} // verus!
