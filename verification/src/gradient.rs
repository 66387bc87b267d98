//! Keyed color gradients: ordered (color, position) stops with a blend mode.

use vstd::prelude::*;

use crate::SCALAR_ONE;
use crate::unity::Color32;
use crate::unity::color_lerp_bounded_frac;
use crate::unity::lerp_bounded_ratio;

verus! {

/// How the color between two gradient keys is produced.
#[derive(Clone, Debug, PartialEq, Eq, Structural)]
pub enum BlendType {
    /// The right bracket key's color, unblended.
    Discrete,
    /// Channel-wise interpolation between the bracket keys.
    Linear,
}

/// One stop of a color gradient: a color at a fixed-point position.
#[derive(Clone, Copy, Debug, Default, PartialEq, Eq, Structural)]
pub struct ColorKey {
    pub color: Color32,
    /// Position of the stop, in units of `SCALAR_ONE`.
    pub t: i64,
}

/// An ordered list of color keys with a blend mode. Keys are scanned in the
/// order given; sorting them is the caller's concern, and an unsorted list
/// keeps its order-dependent behavior.
#[derive(Clone, Debug)]
pub struct ColorKeyGradient {
    pub keys: Vec<ColorKey>,
    pub blend_type: BlendType,
}

/// Opaque black, one end of the default ramp of an empty gradient.
pub open spec fn ramp_black() -> Color32 {
    Color32 { r: 0, g: 0, b: 0, a: 255 }
}

/// Opaque white, the other end of the default ramp.
pub open spec fn ramp_white() -> Color32 {
    Color32 { r: 255, g: 255, b: 255, a: 255 }
}

/// The bracket state after scanning key positions `0 .. n` against the
/// sample position `t`: left key, right key, and the blend fraction as a
/// numerator/denominator pair. The scan starts from the outermost keys with
/// the raw position as its fraction; each key whose position lies strictly
/// below `t` overwrites the state with itself and its successor, so with
/// unsorted keys the last such key wins.
pub open spec fn bracket_upto(keys: Seq<ColorKey>, t: int, n: int) -> (ColorKey, ColorKey, int, int)
    recommends
        1 <= keys.len(),
        n <= keys.len() - 1,
    decreases n,
{
    if n <= 0 {
        (keys[0], keys[keys.len() - 1], t, SCALAR_ONE as int)
    } else if keys[n - 1].t < t {
        (keys[n - 1], keys[n], t - keys[n - 1].t, keys[n].t - keys[n - 1].t)
    } else {
        bracket_upto(keys, t, n - 1)
    }
}

/// The color a gradient yields at the fixed-point position `t`: the default
/// black-to-white ramp when there are no keys, otherwise the bracket found
/// by the full scan, blended according to the mode.
pub open spec fn color_at(keys: Seq<ColorKey>, blend: BlendType, t: int) -> Color32 {
    if keys.len() == 0 {
        color_lerp_bounded_frac(ramp_black(), ramp_white(), t, SCALAR_ONE as int)
    } else {
        let (l, r, num, den) = bracket_upto(keys, t, keys.len() - 1);
        match blend {
            BlendType::Discrete => r.color,
            BlendType::Linear => color_lerp_bounded_frac(l.color, r.color, num, den),
        }
    }
}

impl ColorKeyGradient {
    /// Builds a gradient from a caller-supplied key list and a blend flag:
    /// a set flag selects linear blending, a cleared one discrete steps.
    /// An empty key list is valid and means the default ramp.
    pub fn from_keys(keys: Vec<ColorKey>, blend_mode: bool) -> (g: Self)
        ensures
            g.blend_type == (if blend_mode {
                BlendType::Linear
            } else {
                BlendType::Discrete
            }),
            g.keys@ == keys@,
    {
        let blend_type = if blend_mode {
            BlendType::Linear
        } else {
            BlendType::Discrete
        };
        ColorKeyGradient { blend_type, keys }
    }

    /// Evaluates the gradient at the fixed-point position `t`.
    pub fn get_color(&self, t: i64) -> (c: Color32)
        ensures
            c == color_at(self.keys@, self.blend_type, t as int),
    {
        let len: usize = self.keys.len();
        if len > 0 {
            let mut l: ColorKey = self.keys[0];
            let mut r: ColorKey = self.keys[len - 1];
            let mut num: i128 = t as i128;
            let mut den: i128 = SCALAR_ONE as i128;
            let mut i: usize = 0;
            while i < len - 1
                invariant
                    1 <= len == self.keys@.len(),
                    0 <= i <= len - 1,
                    (l, r, num as int, den as int) == bracket_upto(
                        self.keys@,
                        t as int,
                        i as int,
                    ),
                    -0x4_0000_0000_0000_0000 <= num <= 0x4_0000_0000_0000_0000,
                    -0x4_0000_0000_0000_0000 <= den <= 0x4_0000_0000_0000_0000,
                decreases len - 1 - i,
            {
                if self.keys[i].t < t {
                    l = self.keys[i];
                    r = self.keys[i + 1];
                    num = t as i128 - l.t as i128;
                    den = r.t as i128 - l.t as i128;
                }
                i = i + 1;
            }
            match self.blend_type {
                BlendType::Discrete => r.color,
                BlendType::Linear => lerp_bounded_ratio(l.color, r.color, num, den),
            }
        } else {
            let black = Color32 { r: 0, g: 0, b: 0, a: 255 };
            let white = Color32 { r: 255, g: 255, b: 255, a: 255 };
            black.lerp_bounded(white, t)
        }
    }
}

impl Default for ColorKeyGradient {
    /// An empty gradient in discrete mode: it yields the default
    /// black-to-white ramp.
    fn default() -> (g: Self)
        ensures
            g.keys@.len() == 0,
            g.blend_type == BlendType::Discrete,
    {
        ColorKeyGradient { blend_type: BlendType::Discrete, keys: Vec::new() }
    }
}

} // verus!
