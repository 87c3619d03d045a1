//! The hit record a primitive returns for a ray.

use vstd::prelude::*;
use crate::material::{material_black_s, material_wf, Material};
use crate::vec3::{v3_wf, v3_zero_s, Vec3};
use crate::fx::fx_wf;

verus! {

/// Result of intersecting one ray with one primitive.
///
/// An empty record has `is_intersecting == false` and all other fields at
/// their defaults; `distance` alone never identifies a valid hit —
/// `is_intersecting` must be checked first.
#[derive(Clone, Copy, PartialEq, Eq, Structural, Debug)]
pub struct Intersect {
    pub is_intersecting: bool,
    pub point: Vec3,
    pub normal: Vec3,
    pub distance: i64,
    pub material: Material,
}

pub open spec fn intersect_wf(i: Intersect) -> bool {
    v3_wf(i.point) && v3_wf(i.normal) && fx_wf(i.distance) && material_wf(i.material)
}

pub open spec fn intersect_empty_s() -> Intersect {
    Intersect {
        is_intersecting: false,
        point: v3_zero_s(),
        normal: v3_zero_s(),
        distance: 0,
        material: material_black_s(),
    }
}

pub open spec fn intersect_new_s(point: Vec3, normal: Vec3, distance: i64, material: Material) -> Intersect {
    Intersect { is_intersecting: true, point, normal, distance, material }
}

impl Intersect {
    pub fn empty() -> (i: Intersect)
        ensures
            i == intersect_empty_s(),
            intersect_wf(i),
    {
        Intersect {
            is_intersecting: false,
            point: Vec3 { x: 0, y: 0, z: 0 },
            normal: Vec3 { x: 0, y: 0, z: 0 },
            distance: 0,
            material: Material::black(),
        }
    }

    pub fn new(point: Vec3, normal: Vec3, distance: i64, material: Material) -> (i: Intersect)
        ensures
            i == intersect_new_s(point, normal, distance, material),
    {
        Intersect { is_intersecting: true, point, normal, distance, material }
    }
}

} // verus!
