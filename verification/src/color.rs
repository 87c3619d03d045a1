//! Colors with three fixed-point channels.
//!
//! Channels accumulate without an upper display bound during shading (they
//! are only kept within the fixed-point model's range and at or above zero);
//! clamping to the 0..=255 display range happens in `to_hex` alone.

use vstd::prelude::*;
use crate::fx::{fx_add, fx_add_s, fx_mul, fx_mul_s, fx_of, fx_of_s, FX_LIMIT, FX_ONE};

verus! {

#[derive(Clone, Copy, PartialEq, Eq, Structural, Debug)]
pub struct Color {
    pub r: i64,
    pub g: i64,
    pub b: i64,
}

/// A channel value: clamped at zero below and at the fixed-point limit above.
pub open spec fn chan_i(a: int) -> int {
    if a < 0 {
        0
    } else if a > FX_LIMIT as int {
        FX_LIMIT as int
    } else {
        a
    }
}

pub open spec fn color_wf(c: Color) -> bool {
    0 <= c.r <= FX_LIMIT && 0 <= c.g <= FX_LIMIT && 0 <= c.b <= FX_LIMIT
}

/// A color from whole display channels (0..=255 in ordinary use).
pub open spec fn color_new_s(r: int, g: int, b: int) -> Color {
    Color {
        r: chan_i(fx_of_s(r)) as i64,
        g: chan_i(fx_of_s(g)) as i64,
        b: chan_i(fx_of_s(b)) as i64,
    }
}

pub open spec fn color_black_s() -> Color {
    Color { r: 0, g: 0, b: 0 }
}

pub open spec fn color_add_s(a: Color, b: Color) -> Color {
    Color {
        r: chan_i(fx_add_s(a.r as int, b.r as int)) as i64,
        g: chan_i(fx_add_s(a.g as int, b.g as int)) as i64,
        b: chan_i(fx_add_s(a.b as int, b.b as int)) as i64,
    }
}

/// Each channel scaled by a fixed-point factor.
pub open spec fn color_scale_s(a: Color, s: int) -> Color {
    Color {
        r: chan_i(fx_mul_s(a.r as int, s)) as i64,
        g: chan_i(fx_mul_s(a.g as int, s)) as i64,
        b: chan_i(fx_mul_s(a.b as int, s)) as i64,
    }
}

/// A channel taken to a whole display byte: whole units, capped at 255.
pub open spec fn chan_byte_s(a: int) -> int {
    if a <= 0 {
        0
    } else if a / (FX_ONE as int) > 255 {
        255
    } else {
        a / (FX_ONE as int)
    }
}

/// The packed `0x00RRGGBB` display form of a color.
pub open spec fn color_hex_s(c: Color) -> int {
    chan_byte_s(c.r as int) * 0x10000 + chan_byte_s(c.g as int) * 0x100 + chan_byte_s(c.b as int)
}

/// Adding black changes no well-formed color.
pub proof fn lemma_color_add_black(c: Color)
    requires
        color_wf(c),
    ensures
        color_add_s(c, color_black_s()) == c,
{
}

fn chan_clamp(a: i64) -> (r: i64)
    ensures
        r == chan_i(a as int),
        0 <= r <= FX_LIMIT,
{
    if a < 0 {
        0
    } else if a > FX_LIMIT {
        FX_LIMIT
    } else {
        a
    }
}

fn chan_byte(a: i64) -> (r: u32)
    ensures
        r == chan_byte_s(a as int),
        r <= 255,
{
    if a <= 0 {
        return 0;
    }
    let q: u64 = (a as u64) / (FX_ONE as u64);
    if q > 255 {
        255
    } else {
        q as u32
    }
}

impl Color {
    pub fn new(r: i64, g: i64, b: i64) -> (c: Color)
        ensures
            c == color_new_s(r as int, g as int, b as int),
            color_wf(c),
    {
        Color { r: chan_clamp(fx_of(r)), g: chan_clamp(fx_of(g)), b: chan_clamp(fx_of(b)) }
    }

    pub fn black() -> (c: Color)
        ensures
            c == color_black_s(),
            color_wf(c),
    {
        Color { r: 0, g: 0, b: 0 }
    }

    pub fn add(self, other: Color) -> (c: Color)
        ensures
            c == color_add_s(self, other),
            color_wf(c),
    {
        Color {
            r: chan_clamp(fx_add(self.r, other.r)),
            g: chan_clamp(fx_add(self.g, other.g)),
            b: chan_clamp(fx_add(self.b, other.b)),
        }
    }

    pub fn scale(self, s: i64) -> (c: Color)
        ensures
            c == color_scale_s(self, s as int),
            color_wf(c),
    {
        Color {
            r: chan_clamp(fx_mul(self.r, s)),
            g: chan_clamp(fx_mul(self.g, s)),
            b: chan_clamp(fx_mul(self.b, s)),
        }
    }

    /// Pack into `0x00RRGGBB` for a display buffer.
    pub fn to_hex(self) -> (h: u32)
        ensures
            h == color_hex_s(self),
    {
        let r = chan_byte(self.r);
        let g = chan_byte(self.g);
        let b = chan_byte(self.b);
        r * 0x10000 + g * 0x100 + b
    }
}

} // verus!
