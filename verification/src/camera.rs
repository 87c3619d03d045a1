//! The orbiting camera: an eye, a look-at center, a world up vector, and
//! the orthonormal basis derived from them.
//!
//! The basis is recomputed from eye, center and up at every use, so eye and
//! basis can never fall out of step.

use vstd::prelude::*;
use crate::fx::{fx_add, fx_add_s, fx_mul, fx_mul_s, fx_sub, fx_sub_s, FX_ONE};
use crate::vec3::{
    v3_add, v3_add_s, v3_cross, v3_cross_s, v3_dot, v3_dot_s, v3_normalize, v3_normalize_s,
    v3_scale, v3_scale_s, v3_sub, v3_sub_s, v3_wf, Vec3,
};

verus! {

pub struct Camera {
    pub eye: Vec3,
    pub center: Vec3,
    pub up: Vec3,
}

pub open spec fn camera_wf(c: Camera) -> bool {
    v3_wf(c.eye) && v3_wf(c.center) && v3_wf(c.up)
}

pub open spec fn camera_forward_s(c: Camera) -> Vec3 {
    v3_normalize_s(v3_sub_s(c.center, c.eye))
}

pub open spec fn camera_right_s(c: Camera) -> Vec3 {
    v3_normalize_s(v3_cross_s(camera_forward_s(c), c.up))
}

pub open spec fn camera_up_s(c: Camera) -> Vec3 {
    v3_normalize_s(v3_cross_s(camera_right_s(c), camera_forward_s(c)))
}

/// A camera-space direction taken to world space: the linear combination
/// `x * right + y * up - z * forward` of the basis, renormalized.
pub open spec fn basis_change_s(c: Camera, v: Vec3) -> Vec3 {
    v3_normalize_s(
        v3_sub_s(
            v3_add_s(
                v3_scale_s(camera_right_s(c), v.x as int),
                v3_scale_s(camera_up_s(c), v.y as int),
            ),
            v3_scale_s(camera_forward_s(c), v.z as int),
        ),
    )
}

/// The eye's offset from the center after an orbit step: first rotated
/// about the world vertical axis by the yaw angle, then about the camera's
/// right axis by the pitch angle (Rodrigues' formula), each angle given by
/// its sine and cosine.
pub open spec fn orbit_offset_s(c: Camera, sy: int, cy: int, sp: int, cp: int) -> Vec3 {
    let off = v3_sub_s(c.eye, c.center);
    let o1 = Vec3 {
        x: fx_add_s(fx_mul_s(cy, off.x as int), fx_mul_s(sy, off.z as int)) as i64,
        y: off.y,
        z: fx_sub_s(fx_mul_s(cy, off.z as int), fx_mul_s(sy, off.x as int)) as i64,
    };
    let r = camera_right_s(c);
    let term1 = v3_scale_s(o1, cp);
    let term2 = v3_scale_s(v3_cross_s(r, o1), sp);
    let term3 = v3_scale_s(r, fx_mul_s(v3_dot_s(r, o1), fx_sub_s(FX_ONE as int, cp)));
    v3_add_s(v3_add_s(term1, term2), term3)
}

impl Camera {
    pub fn new(eye: Vec3, center: Vec3, up: Vec3) -> (c: Camera)
        ensures
            c == (Camera { eye, center, up }),
    {
        Camera { eye, center, up }
    }

    /// Take a camera-space direction into world space.
    pub fn basis_change(&self, v: &Vec3) -> (r: Vec3)
        ensures
            r == basis_change_s(*self, *v),
            v3_wf(r),
    {
        let forward = v3_normalize(v3_sub(self.center, self.eye));
        let right = v3_normalize(v3_cross(forward, self.up));
        let up = v3_normalize(v3_cross(right, forward));
        v3_normalize(
            v3_sub(v3_add(v3_scale(right, v.x), v3_scale(up, v.y)), v3_scale(forward, v.z)),
        )
    }

    /// Orbit the eye around the center: yaw about the world vertical axis,
    /// then pitch about the camera's right axis, each angle given by its
    /// sine and cosine in fixed point. Center and up stay put, and the
    /// basis follows the new eye on its next use.
    pub fn orbit(&mut self, sin_yaw: i64, cos_yaw: i64, sin_pitch: i64, cos_pitch: i64)
        ensures
            final(self).center == old(self).center,
            final(self).up == old(self).up,
            final(self).eye == v3_add_s(
                old(self).center,
                orbit_offset_s(
                    *old(self),
                    sin_yaw as int,
                    cos_yaw as int,
                    sin_pitch as int,
                    cos_pitch as int,
                ),
            ),
            v3_wf(final(self).eye),
    {
        let off = v3_sub(self.eye, self.center);
        let o1 = Vec3 {
            x: fx_add(fx_mul(cos_yaw, off.x), fx_mul(sin_yaw, off.z)),
            y: off.y,
            z: fx_sub(fx_mul(cos_yaw, off.z), fx_mul(sin_yaw, off.x)),
        };
        let forward = v3_normalize(v3_sub(self.center, self.eye));
        let right = v3_normalize(v3_cross(forward, self.up));
        let term1 = v3_scale(o1, cos_pitch);
        let term2 = v3_scale(v3_cross(right, o1), sin_pitch);
        let term3 = v3_scale(right, fx_mul(v3_dot(right, o1), fx_sub(FX_ONE, cos_pitch)));
        let rotated = v3_add(v3_add(term1, term2), term3);
        self.eye = v3_add(self.center, rotated);
    }
}

} // verus!
