//! The texture rasterizer skeleton: the centered pixel lattice and the
//! gradient pass over a buffer of field samples.

use meshgen::MeshError;
use meshgen::gradient::{BlendType, ColorKey, ColorKeyGradient};
use meshgen::texturegen::{PixelSite, fill_colors, texture_sites};
use meshgen::unity::Color32;

#[test]
fn pixel_lattice_for_a_square_texture() {
    let sites = texture_sites(2, 2);
    assert_eq!(sites.len(), 4);
    assert_eq!(sites[0], PixelSite { x_doubled: -2, z_doubled: -2 });
    assert_eq!(sites[1], PixelSite { x_doubled: 0, z_doubled: -2 });
    assert_eq!(sites[2], PixelSite { x_doubled: -2, z_doubled: 0 });
    assert_eq!(sites[3], PixelSite { x_doubled: 0, z_doubled: 0 });
}

#[test]
fn pixel_lattice_centers_odd_dimensions_on_half_units() {
    let sites = texture_sites(3, 3);
    assert_eq!(sites.len(), 9);
    assert_eq!(sites[4], PixelSite { x_doubled: -1, z_doubled: -1 });
    assert_eq!(sites[8], PixelSite { x_doubled: 1, z_doubled: 1 });
}

#[test]
fn pixel_lattice_rows_advance_by_the_height() {
    // Rows deliberately step at multiples of the height, not the width.
    let sites = texture_sites(2, 3);
    assert_eq!(sites.len(), 6);
    assert_eq!(sites[4], PixelSite { x_doubled: -2, z_doubled: -1 });
}

#[test]
fn fill_colors_maps_every_sample_through_the_gradient() {
    let g = ColorKeyGradient::default();
    let samples: Vec<i64> = vec![0, 500_000, 1_000_000];
    let mut out: Vec<Color32> = vec![Color32::default(); 3];
    assert_eq!(fill_colors(&g, &samples, &mut out), Ok(()));
    assert_eq!(out[0], Color32 { r: 0, g: 0, b: 0, a: 255 });
    assert_eq!(out[1], Color32 { r: 128, g: 128, b: 128, a: 255 });
    assert_eq!(out[2], Color32 { r: 255, g: 255, b: 255, a: 255 });
}

#[test]
fn fill_colors_applies_the_gradient_keys() {
    let red = Color32 { r: 255, g: 0, b: 0, a: 255 };
    let blue = Color32 { r: 0, g: 0, b: 255, a: 255 };
    let g = ColorKeyGradient {
        keys: vec![
            ColorKey { color: red, t: 0 },
            ColorKey { color: blue, t: 1_000_000 },
        ],
        blend_type: BlendType::Discrete,
    };
    let samples: Vec<i64> = vec![500_000];
    let mut out: Vec<Color32> = vec![Color32::default(); 1];
    assert_eq!(fill_colors(&g, &samples, &mut out), Ok(()));
    assert_eq!(out[0], blue);
}

#[test]
fn fill_colors_refuses_a_wrongly_sized_buffer() {
    let g = ColorKeyGradient::default();
    let samples: Vec<i64> = vec![0, 1];
    let mut out: Vec<Color32> = vec![Color32 { r: 7, g: 7, b: 7, a: 7 }];
    assert_eq!(fill_colors(&g, &samples, &mut out), Err(MeshError::InvalidArgument));
    assert_eq!(out, vec![Color32 { r: 7, g: 7, b: 7, a: 7 }]);
}
