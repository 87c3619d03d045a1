//! Three-component vectors of fixed-point scalars, for points and directions.

use vstd::prelude::*;
use crate::fx::{
    fx_add, fx_add_s, fx_div, fx_div_s, fx_mul, fx_mul_s, fx_neg, fx_neg_s, fx_sqrt, fx_sqrt_s,
    fx_sub, fx_sub_s, fx_wf,
};

verus! {

#[derive(Clone, Copy, PartialEq, Eq, Structural, Debug)]
pub struct Vec3 {
    pub x: i64,
    pub y: i64,
    pub z: i64,
}

pub open spec fn v3_wf(v: Vec3) -> bool {
    fx_wf(v.x) && fx_wf(v.y) && fx_wf(v.z)
}

pub open spec fn v3_zero_s() -> Vec3 {
    Vec3 { x: 0, y: 0, z: 0 }
}

pub open spec fn v3_add_s(a: Vec3, b: Vec3) -> Vec3 {
    Vec3 {
        x: fx_add_s(a.x as int, b.x as int) as i64,
        y: fx_add_s(a.y as int, b.y as int) as i64,
        z: fx_add_s(a.z as int, b.z as int) as i64,
    }
}

pub open spec fn v3_sub_s(a: Vec3, b: Vec3) -> Vec3 {
    Vec3 {
        x: fx_sub_s(a.x as int, b.x as int) as i64,
        y: fx_sub_s(a.y as int, b.y as int) as i64,
        z: fx_sub_s(a.z as int, b.z as int) as i64,
    }
}

pub open spec fn v3_neg_s(a: Vec3) -> Vec3 {
    Vec3 { x: fx_neg_s(a.x as int) as i64, y: fx_neg_s(a.y as int) as i64, z: fx_neg_s(
        a.z as int,
    ) as i64 }
}

pub open spec fn v3_scale_s(a: Vec3, s: int) -> Vec3 {
    Vec3 {
        x: fx_mul_s(a.x as int, s) as i64,
        y: fx_mul_s(a.y as int, s) as i64,
        z: fx_mul_s(a.z as int, s) as i64,
    }
}

pub open spec fn v3_dot_s(a: Vec3, b: Vec3) -> int {
    fx_add_s(
        fx_add_s(fx_mul_s(a.x as int, b.x as int), fx_mul_s(a.y as int, b.y as int)),
        fx_mul_s(a.z as int, b.z as int),
    )
}

pub open spec fn v3_cross_s(a: Vec3, b: Vec3) -> Vec3 {
    Vec3 {
        x: fx_sub_s(fx_mul_s(a.y as int, b.z as int), fx_mul_s(a.z as int, b.y as int)) as i64,
        y: fx_sub_s(fx_mul_s(a.z as int, b.x as int), fx_mul_s(a.x as int, b.z as int)) as i64,
        z: fx_sub_s(fx_mul_s(a.x as int, b.y as int), fx_mul_s(a.y as int, b.x as int)) as i64,
    }
}

/// Length of a vector: square root of its dot product with itself.
pub open spec fn v3_len_s(a: Vec3) -> int {
    fx_sqrt_s(v3_dot_s(a, a))
}

/// Unit vector with the direction of `a`; the zero vector (and any vector so
/// short that its fixed-point length rounds to zero) normalizes to zero.
pub open spec fn v3_normalize_s(a: Vec3) -> Vec3 {
    let n = v3_len_s(a);
    if n == 0 {
        v3_zero_s()
    } else {
        Vec3 {
            x: fx_div_s(a.x as int, n) as i64,
            y: fx_div_s(a.y as int, n) as i64,
            z: fx_div_s(a.z as int, n) as i64,
        }
    }
}

pub fn v3_new(x: i64, y: i64, z: i64) -> (r: Vec3)
    ensures
        r == (Vec3 { x, y, z }),
{
    Vec3 { x, y, z }
}

pub fn v3_zero() -> (r: Vec3)
    ensures
        r == v3_zero_s(),
        v3_wf(r),
{
    Vec3 { x: 0, y: 0, z: 0 }
}

pub fn v3_add(a: Vec3, b: Vec3) -> (r: Vec3)
    ensures
        r == v3_add_s(a, b),
        v3_wf(r),
{
    Vec3 { x: fx_add(a.x, b.x), y: fx_add(a.y, b.y), z: fx_add(a.z, b.z) }
}

pub fn v3_sub(a: Vec3, b: Vec3) -> (r: Vec3)
    ensures
        r == v3_sub_s(a, b),
        v3_wf(r),
{
    Vec3 { x: fx_sub(a.x, b.x), y: fx_sub(a.y, b.y), z: fx_sub(a.z, b.z) }
}

pub fn v3_neg(a: Vec3) -> (r: Vec3)
    ensures
        r == v3_neg_s(a),
        v3_wf(r),
{
    Vec3 { x: fx_neg(a.x), y: fx_neg(a.y), z: fx_neg(a.z) }
}

pub fn v3_scale(a: Vec3, s: i64) -> (r: Vec3)
    ensures
        r == v3_scale_s(a, s as int),
        v3_wf(r),
{
    Vec3 { x: fx_mul(a.x, s), y: fx_mul(a.y, s), z: fx_mul(a.z, s) }
}

pub fn v3_dot(a: Vec3, b: Vec3) -> (r: i64)
    ensures
        r == v3_dot_s(a, b),
        fx_wf(r),
{
    fx_add(fx_add(fx_mul(a.x, b.x), fx_mul(a.y, b.y)), fx_mul(a.z, b.z))
}

pub fn v3_cross(a: Vec3, b: Vec3) -> (r: Vec3)
    ensures
        r == v3_cross_s(a, b),
        v3_wf(r),
{
    Vec3 {
        x: fx_sub(fx_mul(a.y, b.z), fx_mul(a.z, b.y)),
        y: fx_sub(fx_mul(a.z, b.x), fx_mul(a.x, b.z)),
        z: fx_sub(fx_mul(a.x, b.y), fx_mul(a.y, b.x)),
    }
}

pub fn v3_len(a: Vec3) -> (r: i64)
    ensures
        r == v3_len_s(a),
        fx_wf(r),
        r >= 0,
{
    fx_sqrt(v3_dot(a, a))
}

pub fn v3_normalize(a: Vec3) -> (r: Vec3)
    ensures
        r == v3_normalize_s(a),
        v3_wf(r),
{
    let n = v3_len(a);
    if n == 0 {
        v3_zero()
    } else {
        Vec3 { x: fx_div(a.x, n), y: fx_div(a.y, n), z: fx_div(a.z, n) }
    }
}

} // verus!
