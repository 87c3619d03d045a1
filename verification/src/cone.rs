//! Truncated-cone primitive (lateral surface only, no caps), with
//! cylindrical UV texturing.

use vstd::prelude::*;
use crate::fx::{
    clamp_i, abs_i, fx_abs, fx_add, fx_add_s, fx_div, fx_div_s, fx_max, fx_max_s, fx_min,
    fx_min_s, fx_mul, fx_mul_s, fx_neg, fx_neg_s, fx_of, fx_of_s, fx_sqrt, fx_sqrt_s, fx_sub,
    fx_sub_s, FX_ONE,
};
use crate::material::{material_wf, Material};
use crate::ray_intersect::{intersect_empty_s, intersect_new_s, intersect_wf, Intersect};
use crate::texture::{tex_color_s, texture_wf, Texture};
use crate::vec3::{
    v3_add, v3_add_s, v3_normalize, v3_normalize_s, v3_scale, v3_scale_s, v3_wf, Vec3,
};

verus! {

pub struct ConeSection {
    /// Top vertex of the section's axis; the body spans `height` below it.
    pub apex: Vec3,
    pub height: i64,
    /// Radius at the bottom of the span.
    pub r1: i64,
    /// Radius at the top of the span.
    pub r2: i64,
    pub material: Material,
    pub texture: Option<Texture>,
}

pub open spec fn cone_wf(c: ConeSection) -> bool {
    &&& v3_wf(c.apex)
    &&& material_wf(c.material)
    &&& match c.texture {
        Some(t) => texture_wf(t),
        None => true,
    }
}

/// Azimuthal U coordinate of a lateral point, as the fraction of a full
/// turn: measured along the unit diamond (a piecewise-linear map of the
/// angle), which agrees with the angular map on the four axes and wraps the
/// turn into one fixed-point unit.
pub open spec fn azimuth_u_s(x: int, z: int) -> int {
    let s = fx_add_s(clamp_i(abs_i(x)), clamp_i(abs_i(z)));
    if s == 0 {
        32768
    } else {
        let q4 = fx_mul_s(fx_div_s(x, s), 16384);
        if z >= 0 {
            fx_add_s(32768, q4)
        } else if x >= 0 {
            fx_sub_s(FX_ONE as int, q4)
        } else {
            fx_neg_s(q4)
        }
    }
}

/// The material a cone hit carries: the cone's own, with the diffuse color
/// replaced by the cylindrical texture sample when a texture is present.
pub open spec fn cone_material_s(c: ConeSection, point: Vec3, y_hit: int) -> Material {
    match c.texture {
        Some(t) => {
            let u = azimuth_u_s(point.x as int, point.z as int);
            let v = fx_max_s(0, fx_min_s(fx_div_s(fx_neg_s(y_hit), c.height as int), FX_ONE as int));
            Material {
                diffuse: tex_color_s(t, u, v),
                specular: c.material.specular,
                albedo: c.material.albedo,
            }
        },
        None => c.material,
    }
}

/// The hit of a ray with the lateral surface of a truncated cone whose
/// radius varies linearly from `r1` to `r2` over `height` below the apex:
/// the implicit equation gives a quadratic in `t`; the smaller non-negative
/// root is preferred, the larger is the fallback; a negative discriminant,
/// a degenerate leading coefficient or height, or a hit outside the
/// vertical span give the empty record. The normal is the surface gradient:
/// radial, with a vertical slope term `r * k` for radius rate `k`.
pub open spec fn cone_hit_s(c: ConeSection, o: Vec3, d: Vec3) -> Intersect {
    if c.height <= 0 {
        intersect_empty_s()
    } else {
        let ox = fx_sub_s(o.x as int, c.apex.x as int);
        let oy = fx_sub_s(o.y as int, c.apex.y as int);
        let oz = fx_sub_s(o.z as int, c.apex.z as int);
        let k = fx_div_s(fx_sub_s(c.r2 as int, c.r1 as int), c.height as int);
        let kdy = fx_mul_s(k, d.y as int);
        let a = fx_sub_s(
            fx_add_s(fx_mul_s(d.x as int, d.x as int), fx_mul_s(d.z as int, d.z as int)),
            fx_mul_s(kdy, kdy),
        );
        let rb = fx_add_s(c.r1 as int, fx_mul_s(k, oy));
        let b = fx_mul_s(
            fx_of_s(2),
            fx_sub_s(
                fx_add_s(fx_mul_s(ox, d.x as int), fx_mul_s(oz, d.z as int)),
                fx_mul_s(kdy, rb),
            ),
        );
        let cc = fx_sub_s(fx_add_s(fx_mul_s(ox, ox), fx_mul_s(oz, oz)), fx_mul_s(rb, rb));
        let disc = fx_sub_s(fx_mul_s(b, b), fx_mul_s(fx_of_s(4), fx_mul_s(a, cc)));
        if disc < 0 || a == 0 {
            intersect_empty_s()
        } else {
            let sq = fx_sqrt_s(disc);
            let two_a = fx_add_s(a, a);
            let t0 = fx_div_s(fx_sub_s(fx_neg_s(b), sq), two_a);
            let t1 = fx_div_s(fx_add_s(fx_neg_s(b), sq), two_a);
            let t = if t0 >= 0 {
                t0
            } else {
                t1
            };
            if t < 0 {
                intersect_empty_s()
            } else {
                let y_hit = fx_add_s(oy, fx_mul_s(t, d.y as int));
                if y_hit > 0 || y_hit < fx_neg_s(c.height as int) {
                    intersect_empty_s()
                } else {
                    let point = v3_add_s(o, v3_scale_s(d, t));
                    let r_hit = fx_add_s(c.r1 as int, fx_mul_s(k, fx_neg_s(y_hit)));
                    let normal = v3_normalize_s(
                        Vec3 {
                            x: fx_sub_s(point.x as int, c.apex.x as int) as i64,
                            y: fx_mul_s(r_hit, k) as i64,
                            z: fx_sub_s(point.z as int, c.apex.z as int) as i64,
                        },
                    );
                    intersect_new_s(point, normal, t as i64, cone_material_s(c, point, y_hit))
                }
            }
        }
    }
}

fn azimuth_u(x: i64, z: i64) -> (r: i64)
    ensures
        r == azimuth_u_s(x as int, z as int),
{
    let s = fx_add(fx_abs(x), fx_abs(z));
    if s == 0 {
        32768
    } else {
        let q4 = fx_mul(fx_div(x, s), 16384);
        if z >= 0 {
            fx_add(32768, q4)
        } else if x >= 0 {
            fx_sub(FX_ONE, q4)
        } else {
            fx_neg(q4)
        }
    }
}

impl ConeSection {
    /// Nearest intersection of this cone section with the given ray.
    pub fn ray_intersect(&self, ray_origin: &Vec3, ray_dir: &Vec3) -> (res: Intersect)
        requires
            cone_wf(*self),
        ensures
            res == cone_hit_s(*self, *ray_origin, *ray_dir),
            res.is_intersecting ==> res.distance >= 0,
            res.is_intersecting ==> res.point == v3_add_s(
                *ray_origin,
                v3_scale_s(*ray_dir, res.distance as int),
            ),
            intersect_wf(res),
    {
        if self.height <= 0 {
            return Intersect::empty();
        }
        let ox = fx_sub(ray_origin.x, self.apex.x);
        let oy = fx_sub(ray_origin.y, self.apex.y);
        let oz = fx_sub(ray_origin.z, self.apex.z);
        let k = fx_div(fx_sub(self.r2, self.r1), self.height);
        let kdy = fx_mul(k, ray_dir.y);
        let a = fx_sub(
            fx_add(fx_mul(ray_dir.x, ray_dir.x), fx_mul(ray_dir.z, ray_dir.z)),
            fx_mul(kdy, kdy),
        );
        let rb = fx_add(self.r1, fx_mul(k, oy));
        let b = fx_mul(
            fx_of(2),
            fx_sub(fx_add(fx_mul(ox, ray_dir.x), fx_mul(oz, ray_dir.z)), fx_mul(kdy, rb)),
        );
        let cc = fx_sub(fx_add(fx_mul(ox, ox), fx_mul(oz, oz)), fx_mul(rb, rb));
        let disc = fx_sub(fx_mul(b, b), fx_mul(fx_of(4), fx_mul(a, cc)));
        if disc < 0 || a == 0 {
            return Intersect::empty();
        }
        let sq = fx_sqrt(disc);
        let two_a = fx_add(a, a);
        let t0 = fx_div(fx_sub(fx_neg(b), sq), two_a);
        let t1 = fx_div(fx_add(fx_neg(b), sq), two_a);
        let t = if t0 >= 0 {
            t0
        } else {
            t1
        };
        if t < 0 {
            return Intersect::empty();
        }
        let y_hit = fx_add(oy, fx_mul(t, ray_dir.y));
        if y_hit > 0 || y_hit < fx_neg(self.height) {
            return Intersect::empty();
        }
        let point = v3_add(*ray_origin, v3_scale(*ray_dir, t));
        let r_hit = fx_add(self.r1, fx_mul(k, fx_neg(y_hit)));
        let normal = v3_normalize(
            Vec3 {
                x: fx_sub(point.x, self.apex.x),
                y: fx_mul(r_hit, k),
                z: fx_sub(point.z, self.apex.z),
            },
        );
        let mat = match &self.texture {
            Some(tex) => {
                let u = azimuth_u(point.x, point.z);
                let v = fx_max(0, fx_min(fx_div(fx_neg(y_hit), self.height), FX_ONE));
                Material {
                    diffuse: tex.get_color(u, v),
                    specular: self.material.specular,
                    albedo: self.material.albedo,
                }
            },
            None => self.material,
        };
        Intersect::new(point, normal, t, mat)
    }
}

} // verus!
