//! Sphere primitive: nearest positive root of the ray/sphere quadratic.

use vstd::prelude::*;
use crate::fx::{
    fx_add, fx_add_s, fx_div, fx_div_s, fx_mul, fx_mul_s, fx_neg, fx_neg_s, fx_of, fx_of_s,
    fx_sqrt, fx_sqrt_s, fx_sub, fx_sub_s,
};
use crate::material::{material_wf, Material};
use crate::ray_intersect::{intersect_empty_s, intersect_new_s, intersect_wf, Intersect};
use crate::vec3::{
    v3_add, v3_add_s, v3_dot, v3_dot_s, v3_normalize, v3_normalize_s, v3_scale, v3_scale_s,
    v3_sub, v3_sub_s, Vec3,
};

verus! {

pub struct Sphere {
    pub center: Vec3,
    pub radius: i64,
    pub material: Material,
}

pub open spec fn sphere_wf(s: Sphere) -> bool {
    crate::vec3::v3_wf(s.center) && crate::fx::fx_wf(s.radius) && material_wf(s.material)
}

/// Discriminant of the ray/sphere quadratic `|O + tD - C|^2 = r^2`, in
/// fixed point: negative exactly when the ray's line passes the sphere by.
pub open spec fn sphere_disc_s(s: Sphere, o: Vec3, d: Vec3) -> int {
    let a = v3_dot_s(d, d);
    let oc = v3_sub_s(o, s.center);
    let b = fx_add_s(v3_dot_s(oc, d), v3_dot_s(oc, d));
    let c = fx_sub_s(v3_dot_s(oc, oc), fx_mul_s(s.radius as int, s.radius as int));
    fx_sub_s(fx_mul_s(b, b), fx_mul_s(fx_of_s(4), fx_mul_s(a, c)))
}

/// The hit of a ray with a sphere: the quadratic
/// `|O + tD - C|^2 = r^2` is solved in fixed point, the smaller
/// non-negative root is preferred, the larger is the fallback; a negative
/// discriminant, a degenerate direction, or two negative roots give the
/// empty record.
pub open spec fn sphere_hit_s(s: Sphere, o: Vec3, d: Vec3) -> Intersect {
    let a = v3_dot_s(d, d);
    if a <= 0 {
        intersect_empty_s()
    } else {
        let oc = v3_sub_s(o, s.center);
        let b = fx_add_s(v3_dot_s(oc, d), v3_dot_s(oc, d));
        let disc = sphere_disc_s(s, o, d);
        if disc < 0 {
            intersect_empty_s()
        } else {
            let sq = fx_sqrt_s(disc);
            let two_a = fx_add_s(a, a);
            let t0 = fx_div_s(fx_sub_s(fx_neg_s(b), sq), two_a);
            let t1 = fx_div_s(fx_add_s(fx_neg_s(b), sq), two_a);
            let t = if t0 >= 0 {
                t0
            } else {
                t1
            };
            if t < 0 {
                intersect_empty_s()
            } else {
                let point = v3_add_s(o, v3_scale_s(d, t));
                let normal = v3_normalize_s(v3_sub_s(point, s.center));
                intersect_new_s(point, normal, t as i64, s.material)
            }
        }
    }
}

/// A ray whose quadratic has no real root — aimed past the sphere into
/// empty space — intersects nothing.
pub proof fn lemma_sphere_miss(s: Sphere, o: Vec3, d: Vec3)
    requires
        sphere_disc_s(s, o, d) < 0,
    ensures
        !sphere_hit_s(s, o, d).is_intersecting,
{
}

/// The normal at every sphere hit is the unit radial direction from the
/// center through the hit point.
pub proof fn lemma_sphere_normal_radial(s: Sphere, o: Vec3, d: Vec3)
    requires
        sphere_hit_s(s, o, d).is_intersecting,
    ensures
        sphere_hit_s(s, o, d).normal == v3_normalize_s(
            v3_sub_s(sphere_hit_s(s, o, d).point, s.center),
        ),
{
}

impl Sphere {
    /// Nearest intersection of this sphere with the given ray.
    pub fn ray_intersect(&self, ray_origin: &Vec3, ray_direction: &Vec3) -> (res: Intersect)
        ensures
            res == sphere_hit_s(*self, *ray_origin, *ray_direction),
            res.is_intersecting ==> res.distance >= 0,
            res.is_intersecting ==> res.point == v3_add_s(
                *ray_origin,
                v3_scale_s(*ray_direction, res.distance as int),
            ),
            res.is_intersecting ==> res.normal == v3_normalize_s(v3_sub_s(res.point, self.center)),
            res.is_intersecting ==> res.material == self.material,
            material_wf(self.material) ==> intersect_wf(res),
    {
        let a = v3_dot(*ray_direction, *ray_direction);
        if a <= 0 {
            return Intersect::empty();
        }
        let oc = v3_sub(*ray_origin, self.center);
        let b = fx_add(v3_dot(oc, *ray_direction), v3_dot(oc, *ray_direction));
        let c = fx_sub(v3_dot(oc, oc), fx_mul(self.radius, self.radius));
        let disc = fx_sub(fx_mul(b, b), fx_mul(fx_of(4), fx_mul(a, c)));
        if disc < 0 {
            return Intersect::empty();
        }
        let sq = fx_sqrt(disc);
        let two_a = fx_add(a, a);
        let t0 = fx_div(fx_sub(fx_neg(b), sq), two_a);
        let t1 = fx_div(fx_add(fx_neg(b), sq), two_a);
        let t = if t0 >= 0 {
            t0
        } else {
            t1
        };
        if t < 0 {
            return Intersect::empty();
        }
        let point = v3_add(*ray_origin, v3_scale(*ray_direction, t));
        let normal = v3_normalize(v3_sub(point, self.center));
        Intersect::new(point, normal, t, self.material)
    }
}

} // verus!
