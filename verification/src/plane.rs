//! Infinite plane primitive with a tiling texture.

use vstd::prelude::*;
use crate::fx::{abs_i, fx_abs, fx_div, fx_div_s};
use crate::material::{material_wf, Material};
use crate::ray_intersect::{intersect_empty_s, intersect_new_s, intersect_wf, Intersect};
use crate::texture::{tex_color_s, texture_wf, Texture};
use crate::vec3::{v3_add, v3_add_s, v3_dot, v3_dot_s, v3_scale, v3_scale_s, v3_sub, v3_sub_s, v3_wf, Vec3};

verus! {

pub struct Plane {
    pub point: Vec3,
    pub normal: Vec3,
    pub material: Material,
    pub texture: Option<Texture>,
    /// Repeat size of the texture tiling over the plane.
    pub scale: i64,
}

pub open spec fn plane_wf(p: Plane) -> bool {
    &&& v3_wf(p.point)
    &&& v3_wf(p.normal)
    &&& material_wf(p.material)
    &&& match p.texture {
        Some(t) => texture_wf(t),
        None => true,
    }
}

/// The material a plane hit carries: the plane's own, with the diffuse color
/// replaced by the tiled texture sample when a texture is present.
pub open spec fn plane_material_s(p: Plane, hit_point: Vec3) -> Material {
    let u = fx_div_s(hit_point.x as int, p.scale as int);
    let v = fx_div_s(hit_point.z as int, p.scale as int);
    match p.texture {
        Some(t) => Material {
            diffuse: tex_color_s(t, u, v),
            specular: p.material.specular,
            albedo: p.material.albedo,
        },
        None => p.material,
    }
}

/// The hit of a ray with a plane: `N . (O + tD - P) == 0` solved for `t`;
/// a ray whose direction is orthogonal to the normal at fixed-point
/// resolution, or a negative `t`, gives the empty record.
pub open spec fn plane_hit_s(p: Plane, o: Vec3, d: Vec3) -> Intersect {
    let denom = v3_dot_s(p.normal, d);
    if abs_i(denom) >= 1 {
        let t = fx_div_s(v3_dot_s(v3_sub_s(p.point, o), p.normal), denom);
        if t >= 0 {
            let hit_point = v3_add_s(o, v3_scale_s(d, t));
            intersect_new_s(hit_point, p.normal, t as i64, plane_material_s(p, hit_point))
        } else {
            intersect_empty_s()
        }
    } else {
        intersect_empty_s()
    }
}

/// A ray running parallel to the plane at fixed-point resolution — aimed
/// along it into empty space — intersects nothing.
pub proof fn lemma_plane_parallel_miss(p: Plane, o: Vec3, d: Vec3)
    requires
        abs_i(v3_dot_s(p.normal, d)) < 1,
    ensures
        !plane_hit_s(p, o, d).is_intersecting,
{
}

impl Plane {
    /// Nearest intersection of this plane with the given ray.
    pub fn ray_intersect(&self, ray_origin: &Vec3, ray_direction: &Vec3) -> (res: Intersect)
        requires
            plane_wf(*self),
        ensures
            res == plane_hit_s(*self, *ray_origin, *ray_direction),
            res.is_intersecting ==> res.distance >= 0,
            res.is_intersecting ==> res.point == v3_add_s(
                *ray_origin,
                v3_scale_s(*ray_direction, res.distance as int),
            ),
            res.is_intersecting ==> res.normal == self.normal,
            intersect_wf(res),
    {
        let denom = v3_dot(self.normal, *ray_direction);
        if fx_abs(denom) >= 1 {
            let t = fx_div(v3_dot(v3_sub(self.point, *ray_origin), self.normal), denom);
            if t >= 0 {
                let hit_point = v3_add(*ray_origin, v3_scale(*ray_direction, t));
                let u = fx_div(hit_point.x, self.scale);
                let v = fx_div(hit_point.z, self.scale);
                let mat = match &self.texture {
                    Some(tex) => Material {
                        diffuse: tex.get_color(u, v),
                        specular: self.material.specular,
                        albedo: self.material.albedo,
                    },
                    None => self.material,
                };
                return Intersect::new(hit_point, self.normal, t, mat);
            }
        }
        Intersect::empty()
    }
}

} // verus!
