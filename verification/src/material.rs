//! Per-surface optical description.

use vstd::prelude::*;
use crate::color::{color_black_s, color_wf, Color};
use crate::fx::fx_wf;

verus! {

/// Weights of the four shading terms. `refraction` doubles as the refractive
/// index in Snell's law; zero disables refraction entirely.
#[derive(Clone, Copy, PartialEq, Eq, Structural, Debug)]
pub struct Albedo {
    pub diffuse: i64,
    pub specular: i64,
    pub reflection: i64,
    pub refraction: i64,
}

#[derive(Clone, Copy, PartialEq, Eq, Structural, Debug)]
pub struct Material {
    pub diffuse: Color,
    /// Specular exponent: a whole power applied to the view-reflection dot.
    pub specular: u32,
    pub albedo: Albedo,
}

pub open spec fn albedo_wf(a: Albedo) -> bool {
    fx_wf(a.diffuse) && fx_wf(a.specular) && fx_wf(a.reflection) && fx_wf(a.refraction)
}

pub open spec fn material_wf(m: Material) -> bool {
    color_wf(m.diffuse) && albedo_wf(m.albedo)
}

pub open spec fn material_black_s() -> Material {
    Material {
        diffuse: color_black_s(),
        specular: 0,
        albedo: Albedo { diffuse: 0, specular: 0, reflection: 0, refraction: 0 },
    }
}

impl Material {
    pub fn new(diffuse: Color, specular: u32, albedo: Albedo) -> (m: Material)
        ensures
            m == (Material { diffuse, specular, albedo }),
    {
        Material { diffuse, specular, albedo }
    }

    /// The all-zero material, carried by an empty hit record.
    pub fn black() -> (m: Material)
        ensures
            m == material_black_s(),
            material_wf(m),
    {
        Material {
            diffuse: Color::black(),
            specular: 0,
            albedo: Albedo { diffuse: 0, specular: 0, reflection: 0, refraction: 0 },
        }
    }
}

} // verus!
