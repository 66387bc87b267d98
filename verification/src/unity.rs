//! Plain geometry and color value types shared with the rendering engine.

use vstd::prelude::*;

use crate::SCALAR_ONE;

verus! {

/// Largest magnitude a blend-ratio numerator or denominator may take; wide
/// enough for any difference of two fixed-point `i64` scalars.
pub const RATIO_BOUND: i128 = 0x8_0000_0000_0000_0000;

/// A mesh triangle: three indices into a vertex buffer.
#[derive(Clone, Copy, Debug, Default, PartialEq, Eq, Structural, Hash)]
pub struct Triangle {
    pub v1: i32,
    pub v2: i32,
    pub v3: i32,
}

/// One grid cell of a mesh: six vertex indices forming two triangles.
#[derive(Clone, Copy, Debug, Default, PartialEq, Eq, Structural, Hash)]
pub struct Quad {
    pub v1: i32,
    pub v2: i32,
    pub v3: i32,
    pub v4: i32,
    pub v5: i32,
    pub v6: i32,
}

/// A tangent packed into four bytes.
#[derive(Clone, Copy, Debug, Default, PartialEq, Eq, Structural, Hash)]
pub struct TangentU8 {
    pub w: u8,
    pub x: u8,
    pub y: u8,
    pub z: u8,
}

/// An RGBA color with one byte per channel.
#[derive(Clone, Copy, Debug, Default, PartialEq, Eq, Structural, Hash)]
pub struct Color32 {
    pub r: u8,
    pub g: u8,
    pub b: u8,
    pub a: u8,
}

/// Clamps an integer into the byte channel range `[0, 255]`.
pub open spec fn clamp_channel(v: int) -> int {
    if v < 0 {
        0
    } else if v > 255 {
        255
    } else {
        v
    }
}

/// Channel-wise clamped sum of two colors.
pub open spec fn color_add(a: Color32, b: Color32) -> Color32 {
    Color32 {
        r: clamp_channel(a.r + b.r) as u8,
        g: clamp_channel(a.g + b.g) as u8,
        b: clamp_channel(a.b + b.b) as u8,
        a: clamp_channel(a.a + b.a) as u8,
    }
}

/// Channel-wise clamped difference of two colors.
pub open spec fn color_sub(a: Color32, b: Color32) -> Color32 {
    Color32 {
        r: clamp_channel(a.r - b.r) as u8,
        g: clamp_channel(a.g - b.g) as u8,
        b: clamp_channel(a.b - b.b) as u8,
        a: clamp_channel(a.a - b.a) as u8,
    }
}

/// One byte channel scaled by the fraction `num / den` (with `den > 0`),
/// rounded half away from zero and clamped into `[0, 255]`. A non-positive
/// numerator always yields 0, since the rounded product would be clamped
/// there anyway.
pub open spec fn channel_scaled(c: int, num: int, den: int) -> int
    recommends
        den > 0,
{
    if num <= 0 {
        0
    } else if (2 * (c * num) + den) / (2 * den) > 255 {
        255
    } else {
        (2 * (c * num) + den) / (2 * den)
    }
}

/// Channel-wise scaling of a color by the fraction `num / den`.
pub open spec fn color_scaled(c: Color32, num: int, den: int) -> Color32
    recommends
        den > 0,
{
    Color32 {
        r: channel_scaled(c.r as int, num, den) as u8,
        g: channel_scaled(c.g as int, num, den) as u8,
        b: channel_scaled(c.b as int, num, den) as u8,
        a: channel_scaled(c.a as int, num, den) as u8,
    }
}

/// Lexicographic "greater than" over the channels in declaration order
/// (red first, alpha last), the order interpolation picks its direction by.
pub open spec fn color_gt(a: Color32, b: Color32) -> bool {
    if a.r != b.r {
        a.r > b.r
    } else if a.g != b.g {
        a.g > b.g
    } else if a.b != b.b {
        a.b > b.b
    } else {
        a.a > b.a
    }
}

/// Interpolation from `a` toward `b` by the unclamped fraction `num / den`:
/// the lexicographically smaller color plus the scaled channel difference,
/// so that the blend walks the same channel values in either direction.
pub open spec fn color_lerp_frac(a: Color32, b: Color32, num: int, den: int) -> Color32
    recommends
        den > 0,
{
    if color_gt(a, b) {
        color_add(b, color_scaled(color_sub(a, b), den - num, den))
    } else {
        color_add(a, color_scaled(color_sub(b, a), num, den))
    }
}

/// The fraction `num / den` clamped into `[0, 1]`, as a pair of a
/// numerator in `[0, den]` and a positive denominator. A zero denominator
/// counts as an infinite fraction: 1 for a non-negative numerator, 0 for a
/// negative one.
pub open spec fn frac_clamped(num: int, den: int) -> (int, int) {
    let n = if den < 0 { -num } else { num };
    let d = if den < 0 { -den } else { den };
    if d == 0 {
        if n >= 0 { (1, 1) } else { (0, 1) }
    } else if n < 0 {
        (0, d)
    } else if n > d {
        (d, d)
    } else {
        (n, d)
    }
}

/// Interpolation from `a` toward `b` by `num / den` clamped into `[0, 1]`.
pub open spec fn color_lerp_bounded_frac(a: Color32, b: Color32, num: int, den: int) -> Color32 {
    color_lerp_frac(a, b, frac_clamped(num, den).0, frac_clamped(num, den).1)
}

/// Interpolation by a fixed-point fraction `t` in units of `SCALAR_ONE`.
pub open spec fn color_lerp(a: Color32, b: Color32, t: int) -> Color32 {
    color_lerp_frac(a, b, t, SCALAR_ONE as int)
}

/// Interpolation by a fixed-point fraction `t`, clamped into `[0, 1]`.
pub open spec fn color_lerp_bounded(a: Color32, b: Color32, t: int) -> Color32 {
    color_lerp_bounded_frac(a, b, t, SCALAR_ONE as int)
}

impl Color32 {
    /// Adds two colors, clamping each channel at 255.
    pub fn add(self, other: Self) -> (c: Self)
        ensures
            c == color_add(self, other),
    {
        Color32 {
            r: if self.r as u16 + other.r as u16 > 255 { 255 } else { self.r + other.r },
            g: if self.g as u16 + other.g as u16 > 255 { 255 } else { self.g + other.g },
            b: if self.b as u16 + other.b as u16 > 255 { 255 } else { self.b + other.b },
            a: if self.a as u16 + other.a as u16 > 255 { 255 } else { self.a + other.a },
        }
    }

    /// Subtracts a color from this one, clamping each channel at 0.
    pub fn sub(self, other: Self) -> (c: Self)
        ensures
            c == color_sub(self, other),
    {
        Color32 {
            r: if self.r < other.r { 0 } else { self.r - other.r },
            g: if self.g < other.g { 0 } else { self.g - other.g },
            b: if self.b < other.b { 0 } else { self.b - other.b },
            a: if self.a < other.a { 0 } else { self.a - other.a },
        }
    }

    /// Scales every channel by the fraction `num / den`, rounding half away
    /// from zero and clamping into `[0, 255]`.
    pub(crate) fn scaled(self, num: i128, den: i128) -> (c: Self)
        requires
            0 < den <= RATIO_BOUND,
            num <= RATIO_BOUND,
        ensures
            c == color_scaled(self, num as int, den as int),
    {
        Color32 {
            r: scale_channel(self.r, num, den),
            g: scale_channel(self.g, num, den),
            b: scale_channel(self.b, num, den),
            a: scale_channel(self.a, num, den),
        }
    }

    /// Scales the color by a fixed-point factor `t` in units of
    /// `SCALAR_ONE`, per channel, rounded and clamped into `[0, 255]`.
    pub fn mul(self, t: i64) -> (c: Self)
        ensures
            c == color_scaled(self, t as int, SCALAR_ONE as int),
    {
        self.scaled(t as i128, SCALAR_ONE as i128)
    }

    /// Whether this color is lexicographically greater than `other`.
    fn gt(self, other: Self) -> (r: bool)
        ensures
            r == color_gt(self, other),
    {
        if self.r != other.r {
            self.r > other.r
        } else if self.g != other.g {
            self.g > other.g
        } else if self.b != other.b {
            self.b > other.b
        } else {
            self.a > other.a
        }
    }

    /// Interpolates from this color toward `other` by the unclamped
    /// fixed-point fraction `t` in units of `SCALAR_ONE`.
    pub fn lerp(self, other: Self, t: i64) -> (c: Self)
        ensures
            c == color_lerp(self, other, t as int),
    {
        lerp_ratio(self, other, t as i128, SCALAR_ONE as i128)
    }

    /// Interpolates from this color toward `other` by the fixed-point
    /// fraction `t`, clamped into `[0, 1]` first.
    pub fn lerp_bounded(self, other: Self, t: i64) -> (c: Self)
        ensures
            c == color_lerp_bounded(self, other, t as int),
    {
        lerp_bounded_ratio(self, other, t as i128, SCALAR_ONE as i128)
    }
}

/// One channel scaled by `num / den`, rounded half away from zero and
/// clamped into `[0, 255]`.
fn scale_channel(c: u8, num: i128, den: i128) -> (r: u8)
    requires
        0 < den <= RATIO_BOUND,
        num <= RATIO_BOUND,
    ensures
        r as int == channel_scaled(c as int, num as int, den as int),
{
    if num <= 0 {
        0
    } else {
        let cu: u128 = c as u128;
        let nu: u128 = num as u128;
        let du: u128 = den as u128;
        proof {
            assert(cu * nu <= 255 * (RATIO_BOUND as u128)) by (nonlinear_arith)
                requires
                    cu <= 255,
                    nu <= RATIO_BOUND as u128,
            ;
        }
        let p: u128 = cu * nu;
        let v: u128 = (2 * p + du) / (2 * du);
        if v > 255 {
            255
        } else {
            v as u8
        }
    }
}

/// Interpolation by the unclamped ratio `num / den` with `den > 0`.
pub(crate) fn lerp_ratio(a: Color32, b: Color32, num: i128, den: i128) -> (c: Color32)
    requires
        0 < den <= RATIO_BOUND / 2,
        -RATIO_BOUND / 2 <= num <= RATIO_BOUND / 2,
    ensures
        c == color_lerp_frac(a, b, num as int, den as int),
{
    if a.gt(b) {
        b.add(a.sub(b).scaled(den - num, den))
    } else {
        a.add(b.sub(a).scaled(num, den))
    }
}

/// Interpolation by the ratio `num / den` clamped into `[0, 1]`.
pub(crate) fn lerp_bounded_ratio(a: Color32, b: Color32, num: i128, den: i128) -> (c: Color32)
    requires
        -RATIO_BOUND / 2 <= num <= RATIO_BOUND / 2,
        -RATIO_BOUND / 2 <= den <= RATIO_BOUND / 2,
    ensures
        c == color_lerp_bounded_frac(a, b, num as int, den as int),
{
    let n: i128 = if den < 0 { -num } else { num };
    let d: i128 = if den < 0 { -den } else { den };
    if d == 0 {
        if n >= 0 {
            lerp_ratio(a, b, 1, 1)
        } else {
            lerp_ratio(a, b, 0, 1)
        }
    } else if n < 0 {
        lerp_ratio(a, b, 0, d)
    } else if n > d {
        lerp_ratio(a, b, d, d)
    } else {
        lerp_ratio(a, b, n, d)
    }
}

} // verus!
