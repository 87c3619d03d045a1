//! Axis-aligned box primitive: slab intersection, face-identified normals,
//! and per-face UV texturing.

use vstd::prelude::*;
use crate::fx::{
    abs_i, fx_abs, fx_div, fx_div_s, fx_max, fx_max_s, fx_min, fx_min_s, fx_sub, fx_sub_s,
    FX_LIMIT, FX_ONE,
};
use crate::material::{material_wf, Material};
use crate::ray_intersect::{intersect_empty_s, intersect_new_s, intersect_wf, Intersect};
use crate::texture::{tex_color_s, texture_wf, Texture};
use crate::vec3::{v3_add, v3_add_s, v3_scale, v3_scale_s, v3_wf, v3_zero_s, Vec3};

verus! {

/// Tolerance for matching a hit point to one of the six face planes.
pub const FACE_TOL: i64 = 66;

pub struct Cube {
    pub min: Vec3,
    pub max: Vec3,
    pub material: Material,
    /// One optional texture per face, in the order -X, +X, -Y, +Y, -Z, +Z.
    pub textures: Vec<Option<Texture>>,
}

pub open spec fn cube_wf(c: Cube) -> bool {
    &&& v3_wf(c.min)
    &&& v3_wf(c.max)
    &&& material_wf(c.material)
    &&& c.textures@.len() == 6
    &&& forall|i: int|
        0 <= i < 6 ==> match #[trigger] c.textures@[i] {
            Some(t) => texture_wf(t),
            None => true,
        }
}

/// One axis of the slab test: whether the ray can meet the slab at all, and
/// the parameter interval in which it lies inside it. A direction component
/// of zero means the ray runs parallel to the slab: it misses unless the
/// origin already lies between the two planes, in which case the axis does
/// not constrain the interval.
pub open spec fn slab_s(o: int, d: int, mn: int, mx: int) -> (bool, int, int) {
    if d == 0 {
        if o < mn || mx < o {
            (false, 0, 0)
        } else {
            (true, -(FX_LIMIT as int), FX_LIMIT as int)
        }
    } else {
        let t1 = fx_div_s(fx_sub_s(mn, o), d);
        let t2 = fx_div_s(fx_sub_s(mx, o), d);
        if t1 > t2 {
            (true, t2, t1)
        } else {
            (true, t1, t2)
        }
    }
}

/// The outward axis normal of a face, by index -X, +X, -Y, +Y, -Z, +Z.
pub open spec fn axis_normal_s(face: int) -> Vec3 {
    if face == 0 {
        Vec3 { x: -65536i64, y: 0, z: 0 }
    } else if face == 1 {
        Vec3 { x: 65536, y: 0, z: 0 }
    } else if face == 2 {
        Vec3 { x: 0, y: -65536i64, z: 0 }
    } else if face == 3 {
        Vec3 { x: 0, y: 65536, z: 0 }
    } else if face == 4 {
        Vec3 { x: 0, y: 0, z: -65536i64 }
    } else {
        Vec3 { x: 0, y: 0, z: 65536 }
    }
}

/// Distance from a point's coordinate to one of the six face planes, by
/// face index -X, +X, -Y, +Y, -Z, +Z.
pub open spec fn face_gap_s(c: Cube, p: Vec3, face: int) -> int {
    if face == 0 {
        abs_i(fx_sub_s(p.x as int, c.min.x as int))
    } else if face == 1 {
        abs_i(fx_sub_s(p.x as int, c.max.x as int))
    } else if face == 2 {
        abs_i(fx_sub_s(p.y as int, c.min.y as int))
    } else if face == 3 {
        abs_i(fx_sub_s(p.y as int, c.max.y as int))
    } else if face == 4 {
        abs_i(fx_sub_s(p.z as int, c.min.z as int))
    } else {
        abs_i(fx_sub_s(p.z as int, c.max.z as int))
    }
}

/// The face plane nearest the point, earlier faces winning exact ties.
pub open spec fn nearest_face_s(c: Cube, p: Vec3) -> int {
    let f1 = if face_gap_s(c, p, 1) < face_gap_s(c, p, 0) {
        1int
    } else {
        0int
    };
    let f2 = if face_gap_s(c, p, 2) < face_gap_s(c, p, f1) {
        2int
    } else {
        f1
    };
    let f3 = if face_gap_s(c, p, 3) < face_gap_s(c, p, f2) {
        3int
    } else {
        f2
    };
    let f4 = if face_gap_s(c, p, 4) < face_gap_s(c, p, f3) {
        4int
    } else {
        f3
    };
    if face_gap_s(c, p, 5) < face_gap_s(c, p, f4) {
        5int
    } else {
        f4
    }
}

/// Which face a hit point lies on, and its outward normal: the first face
/// in the fixed order whose plane lies within `FACE_TOL` of the point, or,
/// when rounding leaves no plane that close, the nearest face plane — so a
/// hit always carries a unit axis normal.
pub open spec fn cube_face_s(c: Cube, p: Vec3) -> (Vec3, int) {
    if abs_i(fx_sub_s(p.x as int, c.min.x as int)) < FACE_TOL as int {
        (axis_normal_s(0), 0)
    } else if abs_i(fx_sub_s(p.x as int, c.max.x as int)) < FACE_TOL as int {
        (axis_normal_s(1), 1)
    } else if abs_i(fx_sub_s(p.y as int, c.min.y as int)) < FACE_TOL as int {
        (axis_normal_s(2), 2)
    } else if abs_i(fx_sub_s(p.y as int, c.max.y as int)) < FACE_TOL as int {
        (axis_normal_s(3), 3)
    } else if abs_i(fx_sub_s(p.z as int, c.min.z as int)) < FACE_TOL as int {
        (axis_normal_s(4), 4)
    } else if abs_i(fx_sub_s(p.z as int, c.max.z as int)) < FACE_TOL as int {
        (axis_normal_s(5), 5)
    } else {
        let f = nearest_face_s(c, p);
        (axis_normal_s(f), f)
    }
}

/// UV coordinates of a hit point on a face: X-faces map (z, y), Y-faces map
/// (x, z), Z-faces map (x, y), each coordinate as its fraction of the box's
/// extent along that axis.
pub open spec fn cube_uv_s(c: Cube, p: Vec3, face: int) -> (int, int) {
    if face == 0 || face == 1 {
        (
            fx_div_s(fx_sub_s(p.z as int, c.min.z as int), fx_sub_s(c.max.z as int, c.min.z as int)),
            fx_div_s(fx_sub_s(p.y as int, c.min.y as int), fx_sub_s(c.max.y as int, c.min.y as int)),
        )
    } else if face == 2 || face == 3 {
        (
            fx_div_s(fx_sub_s(p.x as int, c.min.x as int), fx_sub_s(c.max.x as int, c.min.x as int)),
            fx_div_s(fx_sub_s(p.z as int, c.min.z as int), fx_sub_s(c.max.z as int, c.min.z as int)),
        )
    } else {
        (
            fx_div_s(fx_sub_s(p.x as int, c.min.x as int), fx_sub_s(c.max.x as int, c.min.x as int)),
            fx_div_s(fx_sub_s(p.y as int, c.min.y as int), fx_sub_s(c.max.y as int, c.min.y as int)),
        )
    }
}

/// The material a cube hit carries: the cube's own, with the diffuse color
/// replaced by the face texture's sample when that face has one.
pub open spec fn cube_material_s(c: Cube, p: Vec3, face: int) -> Material {
    match c.textures@[face] {
        Some(t) => {
            let uv = cube_uv_s(c, p, face);
            Material {
                diffuse: tex_color_s(t, uv.0, uv.1),
                specular: c.material.specular,
                albedo: c.material.albedo,
            }
        },
        None => c.material,
    }
}

/// The hit of a ray with an axis-aligned box, by the slab method: the entry
/// parameter is the greatest per-axis entry and the exit the least per-axis
/// exit. The box is missed when some axis interval is disjoint from the
/// rest, or when it lies entirely behind the origin; an origin inside the
/// box (entry behind, exit ahead) hits the exit face. The overlap checks
/// compare the third axis against the exit of the first two alone.
pub open spec fn cube_hit_s(c: Cube, o: Vec3, d: Vec3) -> Intersect {
    let sx = slab_s(o.x as int, d.x as int, c.min.x as int, c.max.x as int);
    let sy = slab_s(o.y as int, d.y as int, c.min.y as int, c.max.y as int);
    let sz = slab_s(o.z as int, d.z as int, c.min.z as int, c.max.z as int);
    if !sx.0 || !sy.0 {
        intersect_empty_s()
    } else if sx.1 > sy.2 || sy.1 > sx.2 {
        intersect_empty_s()
    } else {
        let tmin1 = fx_max_s(sx.1, sy.1);
        let tmax1 = fx_min_s(sx.2, sy.2);
        if !sz.0 {
            intersect_empty_s()
        } else if tmin1 > sz.2 || sz.1 > tmax1 {
            intersect_empty_s()
        } else {
            let tmin = fx_max_s(tmin1, sz.1);
            let texit = fx_min_s(tmax1, sz.2);
            let t = if tmin >= 0 {
                tmin
            } else {
                texit
            };
            if t < 0 {
                intersect_empty_s()
            } else {
                let point = v3_add_s(o, v3_scale_s(d, t));
                let nf = cube_face_s(c, point);
                intersect_new_s(point, nf.0, t as i64, cube_material_s(c, point, nf.1))
            }
        }
    }
}

fn slab(o: i64, d: i64, mn: i64, mx: i64) -> (r: (bool, i64, i64))
    ensures
        (r.0, r.1 as int, r.2 as int) == slab_s(o as int, d as int, mn as int, mx as int),
{
    if d == 0 {
        if o < mn || mx < o {
            (false, 0, 0)
        } else {
            (true, -FX_LIMIT, FX_LIMIT)
        }
    } else {
        let t1 = fx_div(fx_sub(mn, o), d);
        let t2 = fx_div(fx_sub(mx, o), d);
        if t1 > t2 {
            (true, t2, t1)
        } else {
            (true, t1, t2)
        }
    }
}

impl Cube {
    /// Nearest intersection of this box with the given ray.
    pub fn ray_intersect(&self, ray_origin: &Vec3, ray_dir: &Vec3) -> (res: Intersect)
        requires
            cube_wf(*self),
        ensures
            res == cube_hit_s(*self, *ray_origin, *ray_dir),
            res.is_intersecting ==> res.distance >= 0,
            res.is_intersecting ==> res.point == v3_add_s(
                *ray_origin,
                v3_scale_s(*ray_dir, res.distance as int),
            ),
            res.is_intersecting ==> res.normal == cube_face_s(*self, res.point).0,
            intersect_wf(res),
    {
        let sx = slab(ray_origin.x, ray_dir.x, self.min.x, self.max.x);
        let sy = slab(ray_origin.y, ray_dir.y, self.min.y, self.max.y);
        let sz = slab(ray_origin.z, ray_dir.z, self.min.z, self.max.z);
        if !sx.0 || !sy.0 {
            return Intersect::empty();
        }
        if sx.1 > sy.2 || sy.1 > sx.2 {
            return Intersect::empty();
        }
        let tmin1 = fx_max(sx.1, sy.1);
        let tmax1 = fx_min(sx.2, sy.2);
        if !sz.0 {
            return Intersect::empty();
        }
        if tmin1 > sz.2 || sz.1 > tmax1 {
            return Intersect::empty();
        }
        let tmin = fx_max(tmin1, sz.1);
        let texit = fx_min(tmax1, sz.2);
        let t = if tmin >= 0 {
            tmin
        } else {
            texit
        };
        if t < 0 {
            return Intersect::empty();
        }
        let point = v3_add(*ray_origin, v3_scale(*ray_dir, t));
        let (normal, face) = self.face_of(point);
        let mat = match &self.textures[face] {
            Some(tex) => {
                let (u, v) = self.uv_of(point, face);
                Material {
                    diffuse: tex.get_color(u, v),
                    specular: self.material.specular,
                    albedo: self.material.albedo,
                }
            },
            None => self.material,
        };
        Intersect::new(point, normal, t, mat)
    }

    fn face_of(&self, p: Vec3) -> (r: (Vec3, usize))
        ensures
            (r.0, r.1 as int) == cube_face_s(*self, p),
            r.1 < 6,
    {
        if fx_abs(fx_sub(p.x, self.min.x)) < FACE_TOL {
            (Vec3 { x: -65536, y: 0, z: 0 }, 0)
        } else if fx_abs(fx_sub(p.x, self.max.x)) < FACE_TOL {
            (Vec3 { x: 65536, y: 0, z: 0 }, 1)
        } else if fx_abs(fx_sub(p.y, self.min.y)) < FACE_TOL {
            (Vec3 { x: 0, y: -65536, z: 0 }, 2)
        } else if fx_abs(fx_sub(p.y, self.max.y)) < FACE_TOL {
            (Vec3 { x: 0, y: 65536, z: 0 }, 3)
        } else if fx_abs(fx_sub(p.z, self.min.z)) < FACE_TOL {
            (Vec3 { x: 0, y: 0, z: -65536 }, 4)
        } else if fx_abs(fx_sub(p.z, self.max.z)) < FACE_TOL {
            (Vec3 { x: 0, y: 0, z: 65536 }, 5)
        } else {
            let f = self.nearest_face(p);
            (self.axis_normal(f), f)
        }
    }

    fn nearest_face(&self, p: Vec3) -> (f: usize)
        ensures
            f as int == nearest_face_s(*self, p),
            f < 6,
    {
        let e0 = fx_abs(fx_sub(p.x, self.min.x));
        let e1 = fx_abs(fx_sub(p.x, self.max.x));
        let e2 = fx_abs(fx_sub(p.y, self.min.y));
        let e3 = fx_abs(fx_sub(p.y, self.max.y));
        let e4 = fx_abs(fx_sub(p.z, self.min.z));
        let e5 = fx_abs(fx_sub(p.z, self.max.z));
        let (f1, g1): (usize, i64) = if e1 < e0 {
            (1, e1)
        } else {
            (0, e0)
        };
        let (f2, g2): (usize, i64) = if e2 < g1 {
            (2, e2)
        } else {
            (f1, g1)
        };
        let (f3, g3): (usize, i64) = if e3 < g2 {
            (3, e3)
        } else {
            (f2, g2)
        };
        let (f4, g4): (usize, i64) = if e4 < g3 {
            (4, e4)
        } else {
            (f3, g3)
        };
        if e5 < g4 {
            5
        } else {
            f4
        }
    }

    fn axis_normal(&self, face: usize) -> (n: Vec3)
        requires
            face < 6,
        ensures
            n == axis_normal_s(face as int),
    {
        if face == 0 {
            Vec3 { x: -65536, y: 0, z: 0 }
        } else if face == 1 {
            Vec3 { x: 65536, y: 0, z: 0 }
        } else if face == 2 {
            Vec3 { x: 0, y: -65536, z: 0 }
        } else if face == 3 {
            Vec3 { x: 0, y: 65536, z: 0 }
        } else if face == 4 {
            Vec3 { x: 0, y: 0, z: -65536 }
        } else {
            Vec3 { x: 0, y: 0, z: 65536 }
        }
    }

    fn uv_of(&self, p: Vec3, face: usize) -> (r: (i64, i64))
        requires
            face < 6,
        ensures
            (r.0 as int, r.1 as int) == cube_uv_s(*self, p, face as int),
    {
        if face == 0 || face == 1 {
            (
                fx_div(fx_sub(p.z, self.min.z), fx_sub(self.max.z, self.min.z)),
                fx_div(fx_sub(p.y, self.min.y), fx_sub(self.max.y, self.min.y)),
            )
        } else if face == 2 || face == 3 {
            (
                fx_div(fx_sub(p.x, self.min.x), fx_sub(self.max.x, self.min.x)),
                fx_div(fx_sub(p.z, self.min.z), fx_sub(self.max.z, self.min.z)),
            )
        } else {
            (
                fx_div(fx_sub(p.x, self.min.x), fx_sub(self.max.x, self.min.x)),
                fx_div(fx_sub(p.y, self.min.y), fx_sub(self.max.y, self.min.y)),
            )
        }
    }
}

/// A cube normal is one of the six exact axis unit vectors.
pub open spec fn is_axis_normal(n: Vec3) -> bool {
    ||| n == axis_normal_s(0)
    ||| n == axis_normal_s(1)
    ||| n == axis_normal_s(2)
    ||| n == axis_normal_s(3)
    ||| n == axis_normal_s(4)
    ||| n == axis_normal_s(5)
}

/// A hit point within the box's bounds has both UV coordinates between zero
/// and one unit, on whichever face it was assigned.
pub proof fn lemma_cube_uv_unit(c: Cube, p: Vec3, face: int)
    requires
        0 <= face < 6,
        c.min.x <= p.x <= c.max.x,
        c.min.y <= p.y <= c.max.y,
        c.min.z <= p.z <= c.max.z,
        c.min.x < c.max.x,
        c.min.y < c.max.y,
        c.min.z < c.max.z,
    ensures
        0 <= cube_uv_s(c, p, face).0 <= FX_ONE as int,
        0 <= cube_uv_s(c, p, face).1 <= FX_ONE as int,
{
    crate::fx::lemma_fx_div_unit_range(
        fx_sub_s(p.x as int, c.min.x as int),
        fx_sub_s(c.max.x as int, c.min.x as int),
    );
    crate::fx::lemma_fx_div_unit_range(
        fx_sub_s(p.y as int, c.min.y as int),
        fx_sub_s(c.max.y as int, c.min.y as int),
    );
    crate::fx::lemma_fx_div_unit_range(
        fx_sub_s(p.z as int, c.min.z as int),
        fx_sub_s(c.max.z as int, c.min.z as int),
    );
}

/// Every cube hit carries an exact axis-aligned unit normal: the face
/// plane within tolerance of the hit point, or else the nearest one.
pub proof fn lemma_cube_normal_axis(c: Cube, o: Vec3, d: Vec3)
    requires
        cube_hit_s(c, o, d).is_intersecting,
    ensures
        is_axis_normal(cube_hit_s(c, o, d).normal),
{
    let nf = nearest_face_s(c, cube_hit_s(c, o, d).point);
    assert(0 <= nf < 6);
}

} // verus!
