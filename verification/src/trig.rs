//! Fixed-point sine and cosine on milli-degrees.
//!
//! The controller needs a direction vector from its yaw/pitch state.  In
//! milli-unit arithmetic that direction comes from a rational
//! approximation of the sine (Bhaskara I's formula), evaluated exactly
//! in integers; this approximation *is* the crate's trigonometric model,
//! so every contract that mentions it is exact.

use vstd::prelude::*;
use vstd::arithmetic::div_mod::{
    lemma_div_is_ordered,
    lemma_div_pos_is_pos,
    lemma_fundamental_div_mod_converse_div,
    lemma_small_mod,
};

verus! {

/// An angle reduced to `[0, 360000)` milli-degrees (Euclidean remainder).
pub open spec fn wrap_spec(a: int) -> int {
    a % 360_000
}

/// Reduce an accumulated angle into `[0, 360000)` milli-degrees.
pub fn wrap_angle(a: i64) -> (r: i64)
    requires
        crate::fixed::abs_val(a as int) <= i64::MAX,
    ensures
        r == wrap_spec(a as int),
        0 <= r < 360_000,
{
    proof {
        vstd::arithmetic::div_mod::lemma_mod_bound(a as int, 360_000int);
    }
    if a >= 0 {
        a % 360_000
    } else {
        let b: i64 = -a;
        let m: i64 = b % 360_000;
        proof {
            vstd::arithmetic::div_mod::lemma_fundamental_div_mod(b as int, 360_000int);
            vstd::arithmetic::div_mod::lemma_mod_bound(b as int, 360_000int);
            let q = b as int / 360_000int;
            if m == 0 {
                vstd::arithmetic::div_mod::lemma_fundamental_div_mod_converse_mod(
                    a as int,
                    360_000,
                    -q,
                    0,
                );
            } else {
                vstd::arithmetic::div_mod::lemma_fundamental_div_mod_converse_mod(
                    a as int,
                    360_000,
                    -q - 1,
                    360_000 - m,
                );
            }
        }
        if m == 0 {
            0
        } else {
            360_000 - m
        }
    }
}

/// Bhaskara I's sine approximation on a half turn, in milli-units:
/// `sin(d) ~= 4000 p / (40_500_000_000 - p)` with `p = d (180000 - d)`,
/// for `d` in milli-degrees within `[0, 180000]`.
pub open spec fn sin_arch_spec(d: int) -> int {
    let p = d * (180_000 - d);
    (4000 * p) / (40_500_000_000 - p)
}

/// Sine over a full turn: the second half is the negated first half.
pub open spec fn sin_milli_spec(d: int) -> int {
    if d <= 180_000 {
        sin_arch_spec(d)
    } else {
        -sin_arch_spec(d - 180_000)
    }
}

/// Cosine as the quarter-turn shift of the sine.
pub open spec fn cos_milli_spec(d: int) -> int {
    sin_milli_spec((d + 90_000) % 360_000)
}

/// The arch product `d (180000 - d)` is between 0 and 90000^2.
proof fn lemma_arch_product_bounds(d: int)
    requires
        0 <= d <= 180_000,
    ensures
        0 <= d * (180_000 - d) <= 8_100_000_000,
{
    assert(0 <= d * (180_000 - d)) by (nonlinear_arith)
        requires
            0 <= d <= 180_000,
    ;
    assert(d * (180_000 - d) <= 8_100_000_000) by (nonlinear_arith)
        requires
            0 <= d <= 180_000,
    ;
}

/// Sine on the first half turn, in milli-units within `[0, 1000]`.
pub fn sin_arch(d: i64) -> (r: i64)
    requires
        0 <= d <= 180_000,
    ensures
        r == sin_arch_spec(d as int),
        0 <= r <= 1000,
{
    proof {
        lemma_arch_product_bounds(d as int);
    }
    let p: i64 = d * (180_000 - d);
    let den: i64 = 40_500_000_000 - p;
    let num: i64 = 4000 * p;
    let q: i64 = num / den;
    proof {
        lemma_div_pos_is_pos(num as int, den as int);
        assert(num <= 1001 * (den as int) - 1);
        lemma_fundamental_div_mod_converse_div(
            1001 * (den as int) - 1,
            den as int,
            1000,
            den as int - 1,
        );
        lemma_div_is_ordered(num as int, 1001 * (den as int) - 1, den as int);
    }
    q
}

/// Sine over a full turn of milli-degrees, in `[-1000, 1000]`.
pub fn sin_milli(d: i64) -> (r: i64)
    requires
        0 <= d < 360_000,
    ensures
        r == sin_milli_spec(d as int),
        -1000 <= r <= 1000,
{
    if d <= 180_000 {
        sin_arch(d)
    } else {
        -sin_arch(d - 180_000)
    }
}

/// Cosine over a full turn of milli-degrees, in `[-1000, 1000]`.
pub fn cos_milli(d: i64) -> (r: i64)
    requires
        0 <= d < 360_000,
    ensures
        r == cos_milli_spec(d as int),
        -1000 <= r <= 1000,
{
    let e: i64 = if d < 270_000 {
        d + 90_000
    } else {
        d - 270_000
    };
    proof {
        if d < 270_000 {
            lemma_small_mod((d + 90_000) as nat, 360_000nat);
        } else {
            lemma_fundamental_div_mod_converse_div(
                d + 90_000,
                360_000,
                1,
                d - 270_000,
            );
            vstd::arithmetic::div_mod::lemma_fundamental_div_mod_converse_mod(
                d + 90_000,
                360_000,
                1,
                d - 270_000,
            );
        }
    }
    sin_milli(e)
}

} // verus!
