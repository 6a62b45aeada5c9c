//! Colors and surface materials.
//!
//! A color's channels are unclamped while contributions accumulate;
//! [`Color::normalize`] caps each channel at one (there is no lower clamp).
//! A material carries its weighting coefficients unchecked: the renderer
//! reads them as given.

use vstd::prelude::*;

verus! {

use crate::fixed::{Fx, fx_add, fx_mul, fx_min, fx_div, FX_SCALE};

/// An additive color with unclamped fixed-point channels.
#[derive(Clone, Copy, PartialEq, Eq, Structural, Debug)]
pub struct Color {
    pub r: Fx,
    pub g: Fx,
    pub b: Fx,
}

/// How a surface responds to light.
#[derive(Clone, Copy, PartialEq, Eq, Structural, Debug)]
pub struct Material {
    pub color: Color,
    /// Specular weight.
    pub spec: Fx,
    /// Diffuse weight.
    pub diff: Fx,
    /// Refraction weight.
    pub refr: Fx,
    /// Refractive index.
    pub refr_idx: Fx,
    /// Reflection weight.
    pub refl: Fx,
}

/// Each channel capped at one.
pub open spec fn color_normalize(c: Color) -> Color {
    Color {
        r: fx_min(c.r, Fx { raw: FX_SCALE }),
        g: fx_min(c.g, Fx { raw: FX_SCALE }),
        b: fx_min(c.b, Fx { raw: FX_SCALE }),
    }
}

pub open spec fn color_add(a: Color, b: Color) -> Color {
    Color { r: fx_add(a.r, b.r), g: fx_add(a.g, b.g), b: fx_add(a.b, b.b) }
}

/// Each channel scaled by `s`.
pub open spec fn color_scale(c: Color, s: Fx) -> Color {
    Color { r: fx_mul(c.r, s), g: fx_mul(c.g, s), b: fx_mul(c.b, s) }
}

/// Each channel divided by `s`.
pub open spec fn color_scale_div(c: Color, s: Fx) -> Color {
    Color { r: fx_div(c.r, s), g: fx_div(c.g, s), b: fx_div(c.b, s) }
}

impl Color {
    pub fn new(r: Fx, g: Fx, b: Fx) -> (c: Color)
        ensures
            c == (Color { r, g, b }),
    {
        Color { r, g, b }
    }

    /// The black color, the identity of accumulation.
    pub fn black() -> (c: Color)
        ensures
            c == (Color { r: Fx { raw: 0 }, g: Fx { raw: 0 }, b: Fx { raw: 0 } }),
    {
        Color { r: Fx { raw: 0 }, g: Fx { raw: 0 }, b: Fx { raw: 0 } }
    }

    /// The white color, the specular highlight tint.
    pub fn white() -> (c: Color)
        ensures
            c == (Color {
                r: Fx { raw: FX_SCALE },
                g: Fx { raw: FX_SCALE },
                b: Fx { raw: FX_SCALE },
            }),
    {
        Color { r: Fx { raw: FX_SCALE }, g: Fx { raw: FX_SCALE }, b: Fx { raw: FX_SCALE } }
    }

    /// Clamp each channel to at most one; channels at most one are unchanged.
    pub fn normalize(&self) -> (c: Color)
        ensures
            c == color_normalize(*self),
            c.r.raw <= FX_SCALE && c.g.raw <= FX_SCALE && c.b.raw <= FX_SCALE,
            self.r.raw <= FX_SCALE ==> c.r == self.r,
            self.g.raw <= FX_SCALE ==> c.g == self.g,
            self.b.raw <= FX_SCALE ==> c.b == self.b,
    {
        Color {
            r: self.r.min(Fx { raw: FX_SCALE }),
            g: self.g.min(Fx { raw: FX_SCALE }),
            b: self.b.min(Fx { raw: FX_SCALE }),
        }
    }

    pub fn add(self, o: Color) -> (c: Color)
        ensures
            c == color_add(self, o),
    {
        Color { r: self.r.add(o.r), g: self.g.add(o.g), b: self.b.add(o.b) }
    }

    /// Each channel scaled by `s`.
    pub fn mul(self, s: Fx) -> (c: Color)
        ensures
            c == color_scale(self, s),
    {
        Color { r: self.r.mul(s), g: self.g.mul(s), b: self.b.mul(s) }
    }

    /// Each channel divided by `s`.
    pub fn div(self, s: Fx) -> (c: Color)
        ensures
            c == color_scale_div(self, s),
    {
        Color { r: self.r.div(s), g: self.g.div(s), b: self.b.div(s) }
    }
}

impl Material {
    pub fn new(color: Color, spec: Fx, diff: Fx, refr: Fx, refr_idx: Fx, refl: Fx) -> (m: Material)
        ensures
            m == (Material { color, spec, diff, refr, refr_idx, refl }),
    {
        Material { color, spec, diff, refr, refr_idx, refl }
    }
}

} // verus!
