//! A scene entity: one variant per primitive kind, all answering the same
//! ray-intersection query.

use vstd::prelude::*;
use crate::cone::{cone_hit_s, cone_wf, ConeSection};
use crate::cube::{cube_hit_s, cube_wf, Cube};
use crate::pawn::{frustum_hit_s, frustum_wf, pawn_hit_s, pawn_wf, Frustum, Pawn};
use crate::plane::{plane_hit_s, plane_wf, Plane};
use crate::ray_intersect::{intersect_wf, Intersect};
use crate::sphere::{sphere_hit_s, sphere_wf, Sphere};
use crate::vec3::{v3_add_s, v3_scale_s, Vec3};

verus! {

pub enum Object {
    Sphere(Sphere),
    Plane(Plane),
    Cube(Cube),
    ConeSection(ConeSection),
    Frustum(Frustum),
    Pawn(Pawn),
}

pub open spec fn object_wf(ob: Object) -> bool {
    match ob {
        Object::Sphere(s) => sphere_wf(s),
        Object::Plane(p) => plane_wf(p),
        Object::Cube(c) => cube_wf(c),
        Object::ConeSection(c) => cone_wf(c),
        Object::Frustum(f) => frustum_wf(f),
        Object::Pawn(p) => pawn_wf(p),
    }
}

pub open spec fn objects_wf(objs: Seq<Object>) -> bool {
    forall|i: int| 0 <= i < objs.len() ==> object_wf(#[trigger] objs[i])
}

/// The hit the entity's own primitive reports for the ray.
pub open spec fn object_hit_s(ob: Object, o: Vec3, d: Vec3) -> Intersect {
    match ob {
        Object::Sphere(s) => sphere_hit_s(s, o, d),
        Object::Plane(p) => plane_hit_s(p, o, d),
        Object::Cube(c) => cube_hit_s(c, o, d),
        Object::ConeSection(c) => cone_hit_s(c, o, d),
        Object::Frustum(f) => frustum_hit_s(f, o, d),
        Object::Pawn(p) => pawn_hit_s(p, o, d),
    }
}

/// No primitive reports a hit behind the ray's origin: a reported
/// distance is never negative.
#[verifier::rlimit(100)]
pub proof fn lemma_object_hit_distance_nonneg(ob: Object, o: Vec3, d: Vec3)
    requires
        object_hit_s(ob, o, d).is_intersecting,
    ensures
        object_hit_s(ob, o, d).distance >= 0,
{
}

/// For every primitive, the reported hit point is the ray origin advanced
/// by the reported distance along the ray direction.
#[verifier::rlimit(100)]
pub proof fn lemma_object_hit_point_on_ray(ob: Object, o: Vec3, d: Vec3)
    requires
        object_hit_s(ob, o, d).is_intersecting,
    ensures
        object_hit_s(ob, o, d).point == v3_add_s(
            o,
            v3_scale_s(d, object_hit_s(ob, o, d).distance as int),
        ),
{
}

impl Object {
    /// Nearest intersection of this entity with the given ray.
    pub fn ray_intersect(&self, ray_origin: &Vec3, ray_dir: &Vec3) -> (res: Intersect)
        requires
            object_wf(*self),
        ensures
            res == object_hit_s(*self, *ray_origin, *ray_dir),
            res.is_intersecting ==> res.distance >= 0,
            res.is_intersecting ==> res.point == v3_add_s(
                *ray_origin,
                v3_scale_s(*ray_dir, res.distance as int),
            ),
            intersect_wf(res),
    {
        match self {
            Object::Sphere(s) => s.ray_intersect(ray_origin, ray_dir),
            Object::Plane(p) => p.ray_intersect(ray_origin, ray_dir),
            Object::Cube(c) => c.ray_intersect(ray_origin, ray_dir),
            Object::ConeSection(c) => c.ray_intersect(ray_origin, ray_dir),
            Object::Frustum(f) => f.ray_intersect(ray_origin, ray_dir),
            Object::Pawn(p) => p.ray_intersect(ray_origin, ray_dir),
        }
    }
}

} // verus!
