//! A texture: a decoded pixel grid sampled by UV coordinates.
//!
//! The crate holds a texture as plain values (width, height, one color per
//! pixel, in rows from the top); decoding an image file into this form is
//! the caller's business.

use vstd::prelude::*;
use crate::color::{color_wf, Color};
use crate::fx::FX_ONE;

verus! {

pub struct Texture {
    pub width: usize,
    pub height: usize,
    /// Row-major pixels, `width * height` of them, top row first.
    pub pixels: Vec<Color>,
}

pub open spec fn texture_wf(t: Texture) -> bool {
    &&& 1 <= t.width <= 0x4000
    &&& 1 <= t.height <= 0x4000
    &&& t.pixels@.len() == t.width * t.height
    &&& forall|i: int| 0 <= i < t.pixels@.len() ==> color_wf(#[trigger] t.pixels@[i])
}

/// Fractional part, rounding toward zero as the magnitude's remainder, so it
/// keeps the argument's sign (a negative coordinate has a negative fraction).
pub open spec fn fx_fract_s(a: int) -> int {
    if a >= 0 {
        a % (FX_ONE as int)
    } else {
        -((-a) % (FX_ONE as int))
    }
}

/// Horizontal pixel index for a U coordinate: the wrapped fraction scaled to
/// the width, clamped into the columns.
pub open spec fn tex_x_s(width: int, u: int) -> int {
    let fu = fx_fract_s(u);
    if fu <= 0 {
        0
    } else {
        let xi = fu * width / (FX_ONE as int);
        if xi >= width {
            width - 1
        } else {
            xi
        }
    }
}

/// Vertical pixel index for a V coordinate: the vertical axis is flipped, so
/// `v == 0` maps to the bottom row.
pub open spec fn tex_y_s(height: int, v: int) -> int {
    let gv = FX_ONE as int - fx_fract_s(v);
    let yi = gv * height / (FX_ONE as int);
    if yi >= height {
        height - 1
    } else {
        yi
    }
}

/// Nearest-neighbor sample of a texture at wrapped UV coordinates.
pub open spec fn tex_color_s(t: Texture, u: int, v: int) -> Color {
    t.pixels@[tex_y_s(t.height as int, v) * t.width + tex_x_s(t.width as int, u)]
}

fn fx_fract(a: i64) -> (r: i64)
    ensures
        r == fx_fract_s(a as int),
        -FX_ONE < r < FX_ONE,
{
    if a >= 0 {
        ((a as u64) % (FX_ONE as u64)) as i64
    } else {
        let m: u64 = ((-(a as i128)) as u128 % (FX_ONE as u128)) as u64;
        -(m as i64)
    }
}

impl Texture {
    /// Sample the pixel under the given UV coordinates.
    pub fn get_color(&self, u: i64, v: i64) -> (c: Color)
        requires
            texture_wf(*self),
        ensures
            c == tex_color_s(*self, u as int, v as int),
            color_wf(c),
    {
        let fu = fx_fract(u);
        let fv = fx_fract(v);
        let x: usize = if fu <= 0 {
            0
        } else {
            proof {
                assert((fu as int) * (self.width as int) <= u64::MAX as int) by (nonlinear_arith)
                    requires
                        0 <= fu as int <= FX_ONE as int,
                        0 <= self.width as int <= 0x4000,
                ;
            }
            let xi: u64 = (fu as u64) * (self.width as u64) / (FX_ONE as u64);
            if xi >= self.width as u64 {
                self.width - 1
            } else {
                xi as usize
            }
        };
        let gv: i64 = FX_ONE - fv;
        proof {
            assert((gv as int) * (self.height as int) <= u64::MAX as int) by (nonlinear_arith)
                requires
                    0 <= gv as int <= 2 * FX_ONE as int,
                    0 <= self.height as int <= 0x4000,
            ;
        }
        let yi: u64 = (gv as u64) * (self.height as u64) / (FX_ONE as u64);
        let y: usize = if yi >= self.height as u64 {
            self.height - 1
        } else {
            yi as usize
        };
        proof {
            assert(y * self.width + x < self.width * self.height && y * self.width + x
                < 0x1000_0000) by (nonlinear_arith)
                requires
                    0 <= y <= self.height - 1,
                    0 <= x <= self.width - 1,
                    1 <= self.width <= 0x4000,
                    1 <= self.height <= 0x4000,
            ;
        }
        self.pixels[y * self.width + x]
    }
}

} // verus!
