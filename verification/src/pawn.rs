//! Frustum primitive and the pawn built from two stacked frustums.
//!
//! A frustum intersects by a bounding-sphere stand-in (centered at its
//! midpoint, with the larger of its two radii): a deliberate fidelity
//! tradeoff of this tracer, kept as such rather than exact frustum
//! geometry.

use vstd::prelude::*;
use crate::fx::{
    fx_add, fx_add_s, fx_max, fx_max_s, fx_mul, fx_mul_s, fx_sqrt, fx_sqrt_s, fx_sub, fx_sub_s,
};
use crate::material::{material_wf, Material};
use crate::ray_intersect::{intersect_empty_s, intersect_new_s, intersect_wf, Intersect};
use crate::vec3::{
    v3_add, v3_add_s, v3_dot, v3_dot_s, v3_normalize, v3_normalize_s, v3_scale, v3_scale_s,
    v3_sub, v3_sub_s, v3_wf, Vec3,
};

verus! {

pub struct Frustum {
    /// Center of the lower base.
    pub base: Vec3,
    pub radius_bottom: i64,
    pub radius_top: i64,
    pub height: i64,
    pub material: Material,
}

pub open spec fn frustum_wf(f: Frustum) -> bool {
    v3_wf(f.base) && material_wf(f.material)
}

/// Center of the frustum's bounding sphere: the base raised by half the
/// height.
pub open spec fn frustum_center_s(f: Frustum) -> Vec3 {
    Vec3 {
        x: f.base.x,
        y: fx_add_s(f.base.y as int, fx_mul_s(f.height as int, 32768)) as i64,
        z: f.base.z,
    }
}

/// The hit of a ray with a frustum's bounding sphere (radius: the larger of
/// the two base radii): the closest-approach construction, preferring the
/// near crossing and falling back to the far one when the origin is inside;
/// a ray receding from the center or passing wider than the radius gives
/// the empty record.
pub open spec fn frustum_hit_s(f: Frustum, o: Vec3, d: Vec3) -> Intersect {
    let center = frustum_center_s(f);
    let radius = fx_max_s(f.radius_bottom as int, f.radius_top as int);
    let l = v3_sub_s(center, o);
    let tca = v3_dot_s(l, d);
    if tca < 0 {
        intersect_empty_s()
    } else {
        let d2 = fx_sub_s(v3_dot_s(l, l), fx_mul_s(tca, tca));
        let r2 = fx_mul_s(radius, radius);
        if d2 > r2 {
            intersect_empty_s()
        } else {
            let thc = fx_sqrt_s(fx_sub_s(r2, d2));
            let t0 = fx_sub_s(tca, thc);
            let t1 = fx_add_s(tca, thc);
            let dist = if t0 < 0 {
                t1
            } else {
                t0
            };
            if dist < 0 {
                intersect_empty_s()
            } else {
                let point = v3_add_s(o, v3_scale_s(d, dist));
                let normal = v3_normalize_s(v3_sub_s(point, center));
                intersect_new_s(point, normal, dist as i64, f.material)
            }
        }
    }
}

/// A ray receding from the bounding sphere's center — aimed away into
/// empty space — intersects nothing.
pub proof fn lemma_frustum_receding_miss(f: Frustum, o: Vec3, d: Vec3)
    requires
        v3_dot_s(v3_sub_s(frustum_center_s(f), o), d) < 0,
    ensures
        !frustum_hit_s(f, o, d).is_intersecting,
{
}

impl Frustum {
    /// Nearest intersection of this frustum's bounding sphere with the ray.
    pub fn ray_intersect(&self, ray_origin: &Vec3, ray_dir: &Vec3) -> (res: Intersect)
        ensures
            res == frustum_hit_s(*self, *ray_origin, *ray_dir),
            res.is_intersecting ==> res.distance >= 0,
            res.is_intersecting ==> res.point == v3_add_s(
                *ray_origin,
                v3_scale_s(*ray_dir, res.distance as int),
            ),
            material_wf(self.material) ==> intersect_wf(res),
    {
        let center = Vec3 {
            x: self.base.x,
            y: fx_add(self.base.y, fx_mul(self.height, 32768)),
            z: self.base.z,
        };
        let radius = fx_max(self.radius_bottom, self.radius_top);
        let l = v3_sub(center, *ray_origin);
        let tca = v3_dot(l, *ray_dir);
        if tca < 0 {
            return Intersect::empty();
        }
        let d2 = fx_sub(v3_dot(l, l), fx_mul(tca, tca));
        let r2 = fx_mul(radius, radius);
        if d2 > r2 {
            return Intersect::empty();
        }
        let thc = fx_sqrt(fx_sub(r2, d2));
        let t0 = fx_sub(tca, thc);
        let t1 = fx_add(tca, thc);
        let dist = if t0 < 0 {
            t1
        } else {
            t0
        };
        if dist < 0 {
            return Intersect::empty();
        }
        let point = v3_add(*ray_origin, v3_scale(*ray_dir, dist));
        let normal = v3_normalize(v3_sub(point, center));
        Intersect::new(point, normal, dist, self.material)
    }
}

/// A chess pawn: two frustums stacked on a common axis, a wider lower
/// section and a narrower, flaring upper one, all sized by `scale`.
pub struct Pawn {
    pub base: Vec3,
    pub scale: i64,
    pub material: Material,
}

pub open spec fn pawn_wf(p: Pawn) -> bool {
    v3_wf(p.base) && material_wf(p.material)
}

/// Lower section: radii 0.6 and 0.3 of the scale, one scale tall.
pub open spec fn pawn_lower_s(p: Pawn) -> Frustum {
    Frustum {
        base: p.base,
        radius_bottom: fx_mul_s(p.scale as int, 39322) as i64,
        radius_top: fx_mul_s(p.scale as int, 19661) as i64,
        height: fx_mul_s(p.scale as int, 65536) as i64,
        material: p.material,
    }
}

/// Upper section: radii 0.3 and 0.5 of the scale, 1.2 scales tall, resting
/// on the lower section.
pub open spec fn pawn_upper_s(p: Pawn) -> Frustum {
    Frustum {
        base: Vec3 {
            x: p.base.x,
            y: fx_add_s(p.base.y as int, fx_mul_s(p.scale as int, 65536)) as i64,
            z: p.base.z,
        },
        radius_bottom: fx_mul_s(p.scale as int, 19661) as i64,
        radius_top: fx_mul_s(p.scale as int, 32768) as i64,
        height: fx_mul_s(p.scale as int, 78643) as i64,
        material: p.material,
    }
}

/// The nearer of the two sections' hits, a non-intersecting section
/// counting as infinitely far.
pub open spec fn pawn_hit_s(p: Pawn, o: Vec3, d: Vec3) -> Intersect {
    let i1 = frustum_hit_s(pawn_lower_s(p), o, d);
    let i2 = frustum_hit_s(pawn_upper_s(p), o, d);
    if i1.is_intersecting && (!i2.is_intersecting || i1.distance < i2.distance) {
        i1
    } else {
        i2
    }
}

impl Pawn {
    /// Nearest intersection of either pawn section with the given ray.
    pub fn ray_intersect(&self, ray_origin: &Vec3, ray_dir: &Vec3) -> (res: Intersect)
        ensures
            res == pawn_hit_s(*self, *ray_origin, *ray_dir),
            res.is_intersecting ==> res.distance >= 0,
            res.is_intersecting ==> res.point == v3_add_s(
                *ray_origin,
                v3_scale_s(*ray_dir, res.distance as int),
            ),
            material_wf(self.material) ==> intersect_wf(res),
    {
        let h1 = fx_mul(self.scale, 65536);
        let bottom = Frustum {
            base: self.base,
            radius_bottom: fx_mul(self.scale, 39322),
            radius_top: fx_mul(self.scale, 19661),
            height: h1,
            material: self.material,
        };
        let top = Frustum {
            base: Vec3 { x: self.base.x, y: fx_add(self.base.y, h1), z: self.base.z },
            radius_bottom: fx_mul(self.scale, 19661),
            radius_top: fx_mul(self.scale, 32768),
            height: fx_mul(self.scale, 78643),
            material: self.material,
        };
        let i1 = bottom.ray_intersect(ray_origin, ray_dir);
        let i2 = top.ray_intersect(ray_origin, ray_dir);
        if i1.is_intersecting && (!i2.is_intersecting || i1.distance < i2.distance) {
            i1
        } else {
            i2
        }
    }
}

} // verus!
