//! The texture rasterizer's integer skeleton: the centered pixel lattice
//! of a rectangular texture, and the gradient pass that turns a buffer of
//! fixed-point field samples into RGBA pixels.

use vstd::prelude::*;
use vstd::arithmetic::div_mod::lemma_div_nonincreasing;
use vstd::arithmetic::div_mod::lemma_div_pos_is_pos;
use vstd::arithmetic::div_mod::lemma_mod_bound;

use crate::MeshError;
use crate::gradient::ColorKeyGradient;
use crate::gradient::color_at;
use crate::unity::Color32;

verus! {

/// One pixel of a texture lattice: its local x/z coordinates doubled, so
/// that the half-unit centering of odd dimensions stays exact in integers.
#[derive(Clone, Copy, Debug, PartialEq, Eq, Structural)]
pub struct PixelSite {
    pub x_doubled: i64,
    pub z_doubled: i64,
}

/// The lattice site of pixel `i` in a `w` by `h` texture: columns advance
/// along `i % w`, rows along `i / h`, both centered on the middle of the
/// texture.
pub open spec fn pixel_site_spec(w: int, h: int, i: int) -> PixelSite {
    PixelSite {
        x_doubled: (2 * (i % w) - w) as i64,
        z_doubled: (2 * (i / h) - h) as i64,
    }
}

/// Produces the pixel lattice for a `width` by `height` texture: one site
/// per pixel, in row-major index order.
pub fn texture_sites(width: usize, height: usize) -> (v: Vec<PixelSite>)
    requires
        1 <= width <= 0x7fff_ffff,
        1 <= height <= 0x7fff_ffff,
        width * height <= usize::MAX,
    ensures
        v@.len() == width * height,
        forall|i: int|
            0 <= i < v@.len() ==> v@[i] == pixel_site_spec(width as int, height as int, i),
{
    proof {
        assert((width as int) * (height as int) <= 0x7fff_ffff * 0x7fff_ffff) by (nonlinear_arith)
            requires
                0 <= width as int <= 0x7fff_ffff,
                0 <= height as int <= 0x7fff_ffff,
        ;
    }
    let total: usize = width * height;
    let mut v: Vec<PixelSite> = Vec::new();
    let mut i: usize = 0;
    while i < total
        invariant
            total == width * height,
            total <= 0x3fff_ffff_0000_0001,
            1 <= width <= 0x7fff_ffff,
            1 <= height <= 0x7fff_ffff,
            v@.len() == i,
            0 <= i <= total,
            forall|j: int|
                0 <= j < i ==> v@[j] == pixel_site_spec(width as int, height as int, j),
        decreases total - i,
    {
        let col: usize = i % width;
        let row: usize = i / height;
        proof {
            lemma_mod_bound(i as int, width as int);
            lemma_div_pos_is_pos(i as int, height as int);
            lemma_div_nonincreasing(i as int, height as int);
        }
        let site = PixelSite {
            x_doubled: 2 * (col as i64) - width as i64,
            z_doubled: 2 * (row as i64) - height as i64,
        };
        v.push(site);
        i = i + 1;
    }
    v
}

/// Overwrites every slot of a caller-allocated pixel buffer with the
/// gradient color of the matching fixed-point field sample. The buffer
/// must hold exactly one color per sample; on a refusal it is untouched.
pub fn fill_colors(
    gradient: &ColorKeyGradient,
    samples: &Vec<i64>,
    out: &mut Vec<Color32>,
) -> (r: Result<(), MeshError>)
    ensures
        r matches Ok(_) <==> old(out)@.len() == samples@.len(),
        r matches Ok(_) ==> final(out)@.len() == samples@.len() && (forall|i: int|
            0 <= i < samples@.len() ==> final(out)@[i] == color_at(
                gradient.keys@,
                gradient.blend_type,
                samples@[i] as int,
            )),
        r matches Err(e) ==> e == MeshError::InvalidArgument && final(out)@ == old(out)@,
{
    if out.len() != samples.len() {
        return Err(MeshError::InvalidArgument);
    }
    let total: usize = samples.len();
    let mut i: usize = 0;
    while i < total
        invariant
            total == samples@.len() == out@.len(),
            0 <= i <= total,
            forall|j: int|
                0 <= j < i ==> out@[j] == color_at(
                    gradient.keys@,
                    gradient.blend_type,
                    samples@[j] as int,
                ),
        decreases total - i,
    {
        let c = gradient.get_color(samples[i]);
        out.set(i, c);
        i = i + 1;
    }
    Ok(())
}

} // verus!
