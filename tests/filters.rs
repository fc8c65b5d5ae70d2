use magrustte::filters::bilateral::Bilateral;
use magrustte::filters::blur::{Blur, Mode};
use magrustte::filters::grayscale::Grayscale;
use magrustte::filters::huerotate::Huerotate;
use magrustte::filters::invert::Invert;
use magrustte::filters::lighting::Lighting;
use magrustte::filters::sepia::Sepia;
use magrustte::filters::sharpen::{Sharpen, SharpenMode};
use magrustte::filters::threshold::Threshold;
use magrustte::filters::vignette::Vignette;
use magrustte::filters::Manipulate;
use magrustte::imgarray::Raster;
use magrustte::linalg::{median, outer_product};

fn raster_from(w: usize, h: usize, f: impl Fn(usize, usize, usize) -> u8) -> Raster {
    let mut r = Raster::new(w, h);
    for x in 0..w {
        for y in 0..h {
            for c in 0..3 {
                r.set_sample(x, y, c, f(x, y, c));
            }
        }
    }
    r
}

fn samples(r: &Raster) -> Vec<u8> {
    let mut out = Vec::new();
    for x in 0..r.width() {
        for y in 0..r.height() {
            for c in 0..3 {
                out.push(r.sample(x, y, c));
            }
        }
    }
    out
}

fn pixel(r: &Raster, x: usize, y: usize) -> (u8, u8, u8) {
    (r.sample(x, y, 0), r.sample(x, y, 1), r.sample(x, y, 2))
}

fn varied(w: usize, h: usize) -> Raster {
    raster_from(w, h, |x, y, c| ((x * 37 + y * 91 + c * 53 + 11) % 256) as u8)
}

/// A Gaussian profile of `size` points over `[0, size]` centred at
/// `size / 2`, in fixed point with its largest weight at one.
fn gaussian_profile(size: usize, sigma: f64) -> Vec<u32> {
    let mu = (size / 2) as f64;
    let step = if size > 1 { size as f64 / (size - 1) as f64 } else { 0.0 };
    let raw: Vec<f64> = (0..size)
        .map(|i| {
            let x = i as f64 * step;
            (-0.5 * ((x - mu) / sigma).powi(2)).exp()
        })
        .collect();
    let top = raw.iter().cloned().fold(0.0, f64::max);
    raw.iter().map(|w| ((w / top) * 65536.0).round() as u32).collect()
}

#[test]
fn new_raster_is_black_and_sized() {
    let r = Raster::new(3, 2);
    assert_eq!(r.width(), 3);
    assert_eq!(r.height(), 2);
    assert!(samples(&r).iter().all(|&v| v == 0));
    let b = Raster::blank();
    assert_eq!((b.width(), b.height()), (1, 1));
    assert_eq!(pixel(&b, 0, 0), (0, 0, 0));
}

#[test]
fn set_sample_changes_one_sample() {
    let mut r = Raster::new(2, 2);
    r.set_sample(1, 0, 2, 77);
    assert_eq!(r.sample(1, 0, 2), 77);
    assert_eq!(r.sample(1, 0, 1), 0);
    assert_eq!(r.sample(0, 0, 2), 0);
}

#[test]
fn duplicate_is_an_independent_copy() {
    let r = varied(3, 3);
    let mut d = r.duplicate();
    assert_eq!(samples(&d), samples(&r));
    d.set_sample(0, 0, 0, r.sample(0, 0, 0).wrapping_add(1));
    assert_ne!(samples(&d), samples(&r));
}

#[test]
fn invert_twice_restores_raster() {
    let r = varied(5, 4);
    let once = Invert::new().apply(&r);
    assert_eq!(pixel(&once, 0, 0), (255 - r.sample(0, 0, 0), 255 - r.sample(0, 0, 1), 255 - r.sample(0, 0, 2)));
    let twice = Invert::new().apply(&once);
    assert_eq!(samples(&twice), samples(&r));
}

#[test]
fn grayscale_channels_equal_and_luma() {
    let r = varied(4, 4);
    let g = Grayscale::new().apply(&r);
    for x in 0..4 {
        for y in 0..4 {
            let (a, b, c) = pixel(&g, x, y);
            assert_eq!(a, b);
            assert_eq!(b, c);
        }
    }
    let red = raster_from(1, 1, |_, _, c| if c == 0 { 255 } else { 0 });
    assert_eq!(pixel(&Grayscale::new().apply(&red), 0, 0), (54, 54, 54));
}

#[test]
fn grayscale_keeps_gray_raster() {
    let r = raster_from(6, 3, |x, y, _| ((x * 40 + y * 7) % 256) as u8);
    let g = Grayscale::new().apply(&r);
    assert_eq!(samples(&g), samples(&r));
    let white = raster_from(2, 2, |_, _, _| 255);
    assert_eq!(samples(&Grayscale::new().apply(&white)), samples(&white));
}

#[test]
fn threshold_output_is_binary() {
    let r = varied(6, 5);
    for t in [-10, 0, 17, 128, 254, 255, 300] {
        let out = Threshold::new(t).apply(&r);
        assert!(samples(&out).iter().all(|&v| v == 0 || v == 255));
    }
}

#[test]
fn threshold_compares_luma_with_level() {
    let gray = raster_from(1, 1, |_, _, _| 100);
    assert_eq!(pixel(&Threshold::new(99).apply(&gray), 0, 0), (255, 255, 255));
    // Luma 0.2126 exceeds level 0.
    let dim_red = raster_from(1, 1, |_, _, c| if c == 0 { 1 } else { 0 });
    assert_eq!(pixel(&Threshold::new(0).apply(&dim_red), 0, 0), (255, 255, 255));
    assert_eq!(pixel(&Threshold::new(1).apply(&dim_red), 0, 0), (0, 0, 0));
    assert_eq!(pixel(&Threshold::new(100).apply(&gray), 0, 0), (0, 0, 0));
    assert_eq!(Threshold::new(-5).threshold(), 0);
    assert_eq!(Threshold::new(300).threshold(), 255);
}

#[test]
fn sepia_white_twice_saturates_red_and_green() {
    let white = raster_from(3, 3, |_, _, _| 255);
    let once = Sepia::new().apply(&white);
    let twice = Sepia::new().apply(&once);
    for x in 0..3 {
        for y in 0..3 {
            // The blue row of the matrix sums to 0.937: white gives 238, then 236.
            assert_eq!(pixel(&once, x, y), (255, 255, 238));
            assert_eq!(pixel(&twice, x, y), (255, 255, 236));
        }
    }
}

#[test]
fn sepia_matrix_values() {
    let r = raster_from(1, 1, |_, _, c| [100, 50, 25][c]);
    assert_eq!(pixel(&Sepia::new().apply(&r), 0, 0), (82, 73, 57));
}

#[test]
fn lighting_levels() {
    let r = raster_from(1, 3, |_, y, _| [0, 128, 200][y]);
    let same = Lighting::new(0, 0).apply(&r);
    assert_eq!(samples(&same), samples(&r));
    let bright = Lighting::new(10, 0).apply(&r);
    assert_eq!(pixel(&bright, 0, 2), (210, 210, 210));
    assert_eq!(pixel(&bright, 0, 0), (10, 10, 10));
    let strong = Lighting::new(0, 255).apply(&r);
    assert_eq!(pixel(&strong, 0, 1), (128, 128, 128));
    assert_eq!(pixel(&strong, 0, 2), (255, 255, 255));
    assert_eq!(pixel(&strong, 0, 0), (0, 0, 0));
    let clamped = Lighting::new(-999, 999);
    assert_eq!((clamped.brightness(), clamped.contrast()), (-255, 255));
}

#[test]
fn huerotate_zero_degrees_values() {
    // At 0 degrees the red and green rows are the identity; the blue row is
    // -0.001 R - 0.001 G + B.
    let r = raster_from(2, 1, |x, _, c| [[10, 20, 30], [255, 255, 255]][x][c]);
    let out = Huerotate::new(0, 0, 1_000_000).apply(&r);
    assert_eq!(pixel(&out, 0, 0), (10, 20, 30));
    assert_eq!(pixel(&out, 1, 0), (255, 255, 254));
}

#[test]
fn huerotate_half_turn_values() {
    let r = raster_from(1, 1, |_, _, c| [200, 100, 50][c]);
    let out = Huerotate::new(180, 0, -1_000_000).apply(&r);
    // R: (0.299 - 0.701) 200 + (0.587 + 0.587) 100 + (0.114 + 0.114) 50 = 48.4
    // G: (0.299 + 0.299) 200 + (0.587 - 0.413) 100 + 0.228 * 50 = 148.4
    // B: 0.599 * 200 + 1.175 * 100 + (0.114 - 0.886) 50 = 198.7
    assert_eq!(pixel(&out, 0, 0), (48, 148, 199));
}

#[test]
fn box_blur_radius_zero_is_identity() {
    let r = varied(5, 5);
    let out = Blur::new(0, Mode::Box, vec![]).apply(&r);
    assert_eq!(samples(&out), samples(&r));
}

#[test]
fn box_blur_averages_with_clamped_edges() {
    let r = raster_from(3, 1, |x, _, _| [0, 90, 180][x]);
    let out = Blur::new(1, Mode::Box, vec![]).apply(&r);
    assert_eq!(pixel(&out, 1, 0), (90, 90, 90));
    assert_eq!(pixel(&out, 0, 0), (30, 30, 30));
    assert_eq!(pixel(&out, 2, 0), (150, 150, 150));
}

#[test]
fn blur_radius_is_clamped() {
    assert_eq!(Blur::new(-3, Mode::Median, vec![]).radius(), 0);
    assert_eq!(Blur::new(80, Mode::Box, vec![]).radius(), 50);
}

#[test]
fn gaussian_blur_keeps_constant_raster() {
    let r = raster_from(4, 4, |_, _, _| 77);
    let out = Blur::new(1, Mode::Gaussian, gaussian_profile(3, 1.0)).apply(&r);
    assert_eq!(samples(&out), samples(&r));
}

#[test]
fn gaussian_blur_weighted_value() {
    let r = raster_from(3, 1, |x, _, _| [0, 90, 180][x]);
    let out = Blur::new(1, Mode::Gaussian, vec![1, 2, 1]).apply(&r);
    // Each row of the window is (0 + 2 * 90 + 180) = 360, the row weights sum to 4.
    assert_eq!(pixel(&out, 1, 0), (90, 90, 90));
    // At the left edge the taps are 0, 0, 90: (0 + 0 + 90) / 4.
    assert_eq!(pixel(&out, 0, 0), (22, 22, 22));
}

#[test]
fn median_blur_removes_single_outlier() {
    let bg = [10, 120, 200];
    let r = raster_from(5, 5, |x, y, c| if x == 2 && y == 2 { [250, 0, 7][c] } else { bg[c] });
    for radius in 1..3 {
        let out = Blur::new(radius, Mode::Median, vec![]).apply(&r);
        for x in 0..5 {
            for y in 0..5 {
                assert_eq!(pixel(&out, x, y), (bg[0], bg[1], bg[2]));
            }
        }
    }
}

#[test]
fn median_of_values() {
    let mut v = vec![3, 1, 2];
    assert_eq!(median(&mut v), 2);
    assert_eq!(v, vec![1, 2, 3]);
    let mut v = vec![4, 1, 3, 2];
    assert_eq!(median(&mut v), 2);
    assert_eq!(v, vec![1, 2, 3, 4]);
    assert_eq!(median(&mut vec![1, 4]), 2);
    assert_eq!(median(&mut vec![9]), 9);
    let mut v = vec![255, 255, 0, 0, 255];
    assert_eq!(median(&mut v), 255);
    assert_eq!(v, vec![0, 0, 255, 255, 255]);
}

#[test]
fn bilateral_keeps_edges_with_sharp_range() {
    let r = raster_from(4, 4, |x, _, _| if x < 2 { 20 } else { 220 });
    let mut range = vec![0u32; 256];
    range[0] = 65536;
    let out = Bilateral::new(1, 1000, 100, vec![1, 2, 1], range).apply(&r);
    assert_eq!(samples(&out), samples(&r));
}

#[test]
fn bilateral_with_flat_range_is_weighted_blur() {
    let r = raster_from(3, 1, |x, _, _| [0, 90, 180][x]);
    let out = Bilateral::new(1, 1000, 100, vec![1, 2, 1], vec![1; 256]).apply(&r);
    assert_eq!(pixel(&out, 1, 0), (90, 90, 90));
    assert_eq!(pixel(&out, 0, 0), (22, 22, 22));
}

#[test]
fn sharpen_on_constant_raster() {
    let r = raster_from(3, 3, |_, _, _| 90);
    let mask = Sharpen::new(SharpenMode::Box, 1, true, vec![], vec![]).apply(&r);
    assert!(samples(&mask).iter().all(|&v| v == 0));
    let sharp = Sharpen::new(SharpenMode::Median, 1, false, vec![], vec![]).apply(&r);
    assert_eq!(samples(&sharp), samples(&r));
}

#[test]
fn sharpen_boosts_detail() {
    let r = raster_from(3, 1, |x, _, _| [0, 90, 180][x]);
    // Box coarse at x = 0 is 30: fine = -30, half = -15, 0 - 15 clamps to 0.
    // At x = 2 coarse is 150: fine = 30, 180 + 15 = 195.
    let out = Sharpen::new(SharpenMode::Box, 1, false, vec![], vec![]).apply(&r);
    assert_eq!(pixel(&out, 0, 0), (0, 0, 0));
    assert_eq!(pixel(&out, 1, 0), (90, 90, 90));
    assert_eq!(pixel(&out, 2, 0), (195, 195, 195));
    let mask = Sharpen::new(SharpenMode::Box, 1, true, vec![], vec![]).apply(&r);
    assert_eq!(pixel(&mask, 2, 0), (30, 30, 30));
    assert_eq!(pixel(&mask, 0, 0), (0, 0, 0));
}

#[test]
fn vignette_darkens_corners_of_gray_raster() {
    let r = raster_from(4, 4, |_, _, _| 128);
    let v = Vignette::new(50, 50, gaussian_profile(4, 4.0 * 0.5), gaussian_profile(4, 4.0 * 0.5));
    let out = v.apply(&r);
    let centre = out.sample(2, 2, 0);
    assert_eq!(centre, 128);
    for (x, y) in [(1, 1), (1, 2), (2, 1), (2, 2)] {
        for (cx, cy) in [(0, 0), (0, 3), (3, 0), (3, 3)] {
            for c in 0..3 {
                assert!(out.sample(x, y, c) >= out.sample(cx, cy, c));
            }
        }
    }
    assert!(out.sample(0, 0, 0) < centre);
    // Corner mask: (42020 / 65536)^2 + 0.5 = 0.911, and 128 * 0.911 = 116.6.
    assert_eq!(gaussian_profile(4, 2.0), vec![42020, 65536, 65536, 42020]);
    assert_eq!(out.sample(0, 0, 1), 116);
    assert_eq!(out.sample(3, 0, 2), 116);
    assert_eq!(out.sample(0, 1, 0), 128);
}

#[test]
fn vignette_without_opacity_keeps_raster() {
    let r = varied(4, 3);
    let v = Vignette::new(50, 0, gaussian_profile(4, 2.0), gaussian_profile(3, 1.5));
    assert_eq!(samples(&v.apply(&r)), samples(&r));
    let clamped = Vignette::new(-4, 400, vec![], vec![]);
    assert_eq!((clamped.radius(), clamped.opacity()), (0, 100));
}

#[test]
fn empty_raster_stays_empty() {
    let r = Raster::new(0, 4);
    let out = Blur::new(2, Mode::Median, vec![]).apply(&r);
    assert_eq!((out.width(), out.height()), (0, 4));
    let out = Invert::new().apply(&r);
    assert_eq!(samples(&out).len(), 0);
}

#[test]
fn outer_product_entries() {
    let k = outer_product(&vec![1, 2, 3], &vec![4, 5]);
    assert_eq!(k, vec![vec![4, 5], vec![8, 10], vec![12, 15]]);
    let big = outer_product(&vec![u32::MAX], &vec![u32::MAX]);
    assert_eq!(big[0][0], u32::MAX as u64 * u32::MAX as u64);
    assert!(outer_product(&vec![], &vec![1]).is_empty());
}

#[test]
fn raster_with_zero_width_and_tall_height() {
    let r = Raster::new(0, 1000);
    assert_eq!((r.width(), r.height()), (0, 1000));
}
