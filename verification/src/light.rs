//! The single point light of a scene.

use vstd::prelude::*;
use crate::color::{color_wf, Color};
use crate::fx::fx_wf;
use crate::vec3::{v3_wf, Vec3};

verus! {

#[derive(Clone, Copy, PartialEq, Eq, Structural, Debug)]
pub struct Light {
    pub position: Vec3,
    pub color: Color,
    pub intensity: i64,
}

pub open spec fn light_wf(l: Light) -> bool {
    v3_wf(l.position) && color_wf(l.color) && fx_wf(l.intensity)
}

impl Light {
    pub fn new(position: Vec3, color: Color, intensity: i64) -> (l: Light)
        ensures
            l == (Light { position, color, intensity }),
    {
        Light { position, color, intensity }
    }
}

} // verus!
