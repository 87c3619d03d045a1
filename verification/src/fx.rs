//! Fixed-point scalars: an `i64` counts 1/65536ths of a unit.
//!
//! Every operation clamps its result into `[-FX_LIMIT, FX_LIMIT]`, so all
//! operations are total and their exact value is given by a spec function.

use vstd::prelude::*;

verus! {

/// One unit, in fixed-point steps.
pub const FX_ONE: i64 = 65536;

/// Largest magnitude a fixed-point scalar may take: every operation clamps
/// its result into `[-FX_LIMIT, FX_LIMIT]`.
pub const FX_LIMIT: i64 = 0x4000_0000_0000;

/// A well-formed fixed-point scalar.
pub open spec fn fx_wf(a: i64) -> bool {
    -FX_LIMIT <= a <= FX_LIMIT
}

pub open spec fn abs_i(a: int) -> int {
    if a < 0 { -a } else { a }
}

pub open spec fn clamp_i(a: int) -> int {
    if a > FX_LIMIT as int {
        FX_LIMIT as int
    } else if a < -(FX_LIMIT as int) {
        -(FX_LIMIT as int)
    } else {
        a
    }
}

pub open spec fn opp_sign(a: int, b: int) -> bool {
    (a < 0 && b > 0) || (a > 0 && b < 0)
}

/// Fixed-point product: magnitudes multiplied, scaled down by `FX_ONE`
/// rounding toward zero, then clamped.
pub open spec fn fx_mul_s(a: int, b: int) -> int {
    let m = (abs_i(a) * abs_i(b)) / (FX_ONE as int);
    clamp_i(if opp_sign(a, b) { -m } else { m })
}

/// Fixed-point quotient, rounding toward zero; a zero divisor yields zero.
pub open spec fn fx_div_s(a: int, b: int) -> int {
    if b == 0 {
        0
    } else {
        let m = (abs_i(a) * (FX_ONE as int)) / abs_i(b);
        clamp_i(if opp_sign(a, b) { -m } else { m })
    }
}

pub open spec fn fx_add_s(a: int, b: int) -> int {
    clamp_i(a + b)
}

pub open spec fn fx_sub_s(a: int, b: int) -> int {
    clamp_i(a - b)
}

pub open spec fn fx_neg_s(a: int) -> int {
    clamp_i(-a)
}

pub open spec fn fx_min_s(a: int, b: int) -> int {
    if a < b { a } else { b }
}

pub open spec fn fx_max_s(a: int, b: int) -> int {
    if a > b { a } else { b }
}

/// A whole number taken into fixed point.
pub open spec fn fx_of_s(v: int) -> int {
    clamp_i(v * (FX_ONE as int))
}

/// `r` is the floor of the square root of `n`.
pub open spec fn is_sqrt_floor(n: int, r: int) -> bool {
    0 <= r && r * r <= n && n < (r + 1) * (r + 1)
}

pub open spec fn sqrt_floor(n: int) -> int {
    choose|r: int| is_sqrt_floor(n, r)
}

/// Fixed-point square root of a clamped non-negative scalar; non-positive
/// inputs yield zero.
pub open spec fn fx_sqrt_s(a: int) -> int {
    if a <= 0 {
        0
    } else {
        sqrt_floor(clamp_i(a) * (FX_ONE as int))
    }
}

/// Fixed-point power with a whole exponent; `fx_pow_s(b, 0) == FX_ONE`.
pub open spec fn fx_pow_s(b: int, e: nat) -> int
    decreases e,
{
    if e == 0 {
        FX_ONE as int
    } else {
        fx_mul_s(b, fx_pow_s(b, (e - 1) as nat))
    }
}

/// The floor square root is unique, so any witness equals `sqrt_floor`.
pub proof fn lemma_sqrt_floor_unique(n: int, r: int)
    requires
        is_sqrt_floor(n, r),
    ensures
        sqrt_floor(n) == r,
{
    assert(exists|x: int| is_sqrt_floor(n, x)) by {
        assert(is_sqrt_floor(n, r));
    }
    let s = sqrt_floor(n);
    assert(is_sqrt_floor(n, s));
    if s < r {
        assert((s + 1) * (s + 1) <= r * r) by (nonlinear_arith)
            requires
                0 <= s,
                s < r,
        ;
        assert(false);
    }
    if r < s {
        assert((r + 1) * (r + 1) <= s * s) by (nonlinear_arith)
            requires
                0 <= r,
                r < s,
        ;
        assert(false);
    }
}

/// A fixed-point square is never negative.
pub proof fn lemma_fx_square_nonneg(x: int)
    ensures
        0 <= fx_mul_s(x, x),
{
    assert(0 <= abs_i(x) * abs_i(x)) by (nonlinear_arith);
    vstd::arithmetic::div_mod::lemma_div_pos_is_pos(abs_i(x) * abs_i(x), FX_ONE as int);
}

/// A value divided by a bound at least as large gives a fixed-point
/// quotient between zero and one unit.
pub proof fn lemma_fx_div_unit_range(a: int, b: int)
    requires
        0 <= a <= b,
        1 <= b,
    ensures
        0 <= fx_div_s(a, b) <= FX_ONE as int,
{
    let num = a * (FX_ONE as int);
    let m = num / b;
    assert(num <= b * (FX_ONE as int)) by {
        vstd::arithmetic::mul::lemma_mul_inequality(a, b, FX_ONE as int);
    }
    assert(0 <= a * (FX_ONE as int)) by (nonlinear_arith)
        requires
            0 <= a,
    ;
    assert(0 <= m) by {
        vstd::arithmetic::div_mod::lemma_div_pos_is_pos(num, b);
    }
    assert(m <= (b * (FX_ONE as int)) / b) by {
        vstd::arithmetic::div_mod::lemma_div_is_ordered(num, b * (FX_ONE as int), b);
    }
    assert((b * (FX_ONE as int)) / b == FX_ONE as int) by {
        vstd::arithmetic::div_mod::lemma_div_multiples_vanish(FX_ONE as int, b);
    }
}

fn clamp128(a: i128) -> (r: i64)
    ensures
        r == clamp_i(a as int),
        fx_wf(r),
{
    if a > FX_LIMIT as i128 {
        FX_LIMIT
    } else if a < -(FX_LIMIT as i128) {
        -FX_LIMIT
    } else {
        a as i64
    }
}

fn abs_mag(a: i64) -> (r: u128)
    ensures
        r == abs_i(a as int),
{
    if a >= 0 {
        a as u128
    } else {
        let wide: i128 = -(a as i128);
        wide as u128
    }
}

fn signed_clamp(m: u128, neg: bool) -> (r: i64)
    ensures
        r == clamp_i(if neg { -(m as int) } else { m as int }),
        fx_wf(r),
{
    if m > FX_LIMIT as u128 {
        if neg {
            -FX_LIMIT
        } else {
            FX_LIMIT
        }
    } else {
        if neg {
            -(m as i64)
        } else {
            m as i64
        }
    }
}

pub fn fx_add(a: i64, b: i64) -> (r: i64)
    ensures
        r == fx_add_s(a as int, b as int),
        fx_wf(r),
{
    clamp128(a as i128 + b as i128)
}

pub fn fx_sub(a: i64, b: i64) -> (r: i64)
    ensures
        r == fx_sub_s(a as int, b as int),
        fx_wf(r),
{
    clamp128(a as i128 - b as i128)
}

pub fn fx_neg(a: i64) -> (r: i64)
    ensures
        r == fx_neg_s(a as int),
        fx_wf(r),
{
    clamp128(-(a as i128))
}

pub fn fx_abs(a: i64) -> (r: i64)
    ensures
        r == clamp_i(abs_i(a as int)),
        fx_wf(r),
{
    if a >= 0 {
        clamp128(a as i128)
    } else {
        clamp128(-(a as i128))
    }
}

pub fn fx_min(a: i64, b: i64) -> (r: i64)
    ensures
        r == fx_min_s(a as int, b as int),
{
    if a < b {
        a
    } else {
        b
    }
}

pub fn fx_max(a: i64, b: i64) -> (r: i64)
    ensures
        r == fx_max_s(a as int, b as int),
{
    if a > b {
        a
    } else {
        b
    }
}

pub fn fx_mul(a: i64, b: i64) -> (r: i64)
    ensures
        r == fx_mul_s(a as int, b as int),
        fx_wf(r),
{
    let am = abs_mag(a);
    let bm = abs_mag(b);
    proof {
        assert((am as int) * (bm as int) <= u128::MAX as int) by (nonlinear_arith)
            requires
                am as int <= 0x8000_0000_0000_0000,
                bm as int <= 0x8000_0000_0000_0000,
        ;
    }
    let m = am * bm / (FX_ONE as u128);
    signed_clamp(m, (a < 0 && b > 0) || (a > 0 && b < 0))
}

pub fn fx_div(a: i64, b: i64) -> (r: i64)
    ensures
        r == fx_div_s(a as int, b as int),
        fx_wf(r),
{
    if b == 0 {
        return 0;
    }
    let am = abs_mag(a);
    let bm = abs_mag(b);
    proof {
        assert((am as int) * (FX_ONE as int) <= u128::MAX as int) by (nonlinear_arith)
            requires
                am as int <= 0x8000_0000_0000_0000,
        ;
    }
    let m = am * (FX_ONE as u128) / bm;
    signed_clamp(m, (a < 0 && b > 0) || (a > 0 && b < 0))
}

pub fn fx_of(v: i64) -> (r: i64)
    ensures
        r == fx_of_s(v as int),
        fx_wf(r),
{
    proof {
        assert(i128::MIN as int <= (v as int) * (FX_ONE as int) <= i128::MAX as int)
            by (nonlinear_arith)
            requires
                -0x8000_0000_0000_0000 <= v as int <= 0x8000_0000_0000_0000,
        ;
    }
    clamp128(v as i128 * FX_ONE as i128)
}

/// Floor square root of a machine word, by bisection.
pub fn isqrt64(n: u64) -> (r: u64)
    ensures
        is_sqrt_floor(n as int, r as int),
        r == sqrt_floor(n as int),
        r <= 0x1_0000_0000u64,
{
    let mut lo: u64 = 0;
    let mut hi: u64 = 0x1_0000_0000;
    proof {
        assert((0x1_0000_0000 as int) * (0x1_0000_0000 as int) > u64::MAX as int) by (nonlinear_arith);
    }
    while lo + 1 < hi
        invariant
            lo < hi,
            hi <= 0x1_0000_0000,
            (lo as int) * (lo as int) <= n as int,
            (n as int) < (hi as int) * (hi as int),
        decreases hi - lo,
    {
        let mid: u64 = lo + (hi - lo) / 2;
        assert((mid as int) * (mid as int) < u64::MAX as int) by (nonlinear_arith)
            requires
                mid < 0x1_0000_0000,
        ;
        if mid * mid <= n {
            lo = mid;
        } else {
            hi = mid;
        }
    }
    proof {
        lemma_sqrt_floor_unique(n as int, lo as int);
    }
    lo
}

pub fn fx_sqrt(a: i64) -> (r: i64)
    ensures
        r == fx_sqrt_s(a as int),
        fx_wf(r),
        r >= 0,
{
    if a <= 0 {
        return 0;
    }
    let aa: i64 = if a > FX_LIMIT {
        FX_LIMIT
    } else {
        a
    };
    proof {
        assert((aa as int) * (FX_ONE as int) <= u64::MAX as int) by (nonlinear_arith)
            requires
                0 <= aa as int <= FX_LIMIT as int,
        ;
    }
    let n: u64 = (aa as u64) * (FX_ONE as u64);
    let r = isqrt64(n);
    proof {
        assert(r as int <= FX_LIMIT as int) by (nonlinear_arith)
            requires
                is_sqrt_floor(n as int, r as int),
                n as int <= (FX_LIMIT as int) * (FX_ONE as int),
        ;
    }
    r as i64
}

pub fn fx_pow(b: i64, e: u32) -> (r: i64)
    ensures
        r == fx_pow_s(b as int, e as nat),
        fx_wf(r),
{
    let mut acc: i64 = FX_ONE;
    let mut i: u32 = 0;
    while i < e
        invariant
            i <= e,
            acc == fx_pow_s(b as int, i as nat),
            fx_wf(acc),
        decreases e - i,
    {
        acc = fx_mul(b, acc);
        i = i + 1;
    }
    acc
}

} // verus!
