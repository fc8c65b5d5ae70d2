use vstd::prelude::*;
use vstd::string::*;
use crate::imgarray::{Raster, RasterView};
use crate::filters::{Manipulate, SampleRule, rule_image, map_samples};
use crate::filters::blur::{Blur, Mode, blur_radius, MAX_WEIGHT};
use crate::filters::bilateral::Bilateral;
use crate::linalg::{clamp, clamp_i32};

verus! {

/// The filter that gives the coarse image of an unsharp mask.
#[derive(Debug, Clone, Copy, PartialEq, Eq, Structural)]
pub enum SharpenMode {
    Gaussian,
    Box,
    Median,
    Bilateral,
}

/// The smoothing filter behind a sharpen.
pub enum Coarse {
    Blur(Blur),
    Bilateral(Bilateral),
}

impl SampleRule for Coarse {
    open spec fn well_formed(&self) -> bool {
        match self {
            Coarse::Blur(b) => b.well_formed(),
            Coarse::Bilateral(b) => b.well_formed(),
        }
    }

    open spec fn sample_spec(&self, img: RasterView, x: int, y: int, c: int) -> u8 {
        match self {
            Coarse::Blur(b) => b.sample_spec(img, x, y, c),
            Coarse::Bilateral(b) => b.sample_spec(img, x, y, c),
        }
    }

    fn sample(&self, img: &Raster, x: usize, y: usize, c: usize) -> (r: u8) {
        match self {
            Coarse::Blur(b) => b.sample(img, x, y, c),
            Coarse::Bilateral(b) => b.sample(img, x, y, c),
        }
    }
}

/// Half of `f`, rounded toward zero.
pub open spec fn half_toward_zero(f: int) -> int {
    if f >= 0 {
        f / 2
    } else {
        -((-f) / 2)
    }
}

/// Unsharp masking of sample `o` whose coarse level is `k`: the fine detail
/// `o - k` itself when `mask_only`, else `o` plus half the detail; clamped to
/// `[0, 255]`.
pub open spec fn sharpen_level(o: int, k: int, mask_only: bool) -> int {
    let fine = o - k;
    if mask_only {
        clamp(fine, 0, 255)
    } else {
        clamp(o + half_toward_zero(fine), 0, 255)
    }
}

/// Sharpening by unsharp masking.
pub struct Sharpen {
    mode: SharpenMode,
    coarse_radius: i32,
    render_fine_mask: bool,
    coarse: Coarse,
}

impl Sharpen {
    pub closed spec fn mode_spec(self) -> SharpenMode {
        self.mode
    }

    pub closed spec fn coarse_spec(self) -> Coarse {
        self.coarse
    }

    pub closed spec fn mask_only(self) -> bool {
        self.render_fine_mask
    }

    /// A sharpen whose coarse image is a blur of radius `coarse_radius`
    /// (clamped to `[0, 50]`) of the kind `mode` names. A Gaussian blur takes
    /// its profile from `weights`; a bilateral filter, of spatial sigma the
    /// coarse radius and intensity sigma 0.05 (both then clamped to
    /// `[0.1, 50]`), takes its spatial profile from `weights` and its range
    /// weights from `range`, all in fixed point (one is `MAX_WEIGHT`). With `render_fine_mask` the result is the fine
    /// detail alone.
    pub fn new(
        mode: SharpenMode,
        coarse_radius: i32,
        render_fine_mask: bool,
        weights: Vec<u32>,
        range: Vec<u32>,
    ) -> (r: Sharpen)
        requires
            mode == SharpenMode::Gaussian || mode == SharpenMode::Bilateral ==> weights.len() == 2
                * blur_radius(coarse_radius as int) + 1,
            mode == SharpenMode::Gaussian || mode == SharpenMode::Bilateral ==> forall|i: int|
                0 <= i < weights.len() ==> #[trigger] weights[i] <= MAX_WEIGHT,
            mode == SharpenMode::Bilateral ==> range.len() == 256,
            mode == SharpenMode::Bilateral ==> forall|i: int|
                0 <= i < range.len() ==> #[trigger] range[i] <= MAX_WEIGHT,
        ensures
            r.mode_spec() == mode,
            r.coarse_radius_spec() == coarse_radius,
            r.mask_only() == render_fine_mask,
            r.well_formed(),
            match r.coarse_spec() {
                Coarse::Blur(b) => {
                    &&& b.radius_spec() == blur_radius(coarse_radius as int)
                    &&& b.mode_spec() == match mode {
                        SharpenMode::Gaussian => Mode::Gaussian,
                        SharpenMode::Box => Mode::Box,
                        _ => Mode::Median,
                    }
                    &&& mode == SharpenMode::Gaussian ==> b.profile() == weights@
                    &&& mode != SharpenMode::Bilateral
                },
                Coarse::Bilateral(b) => {
                    &&& b.radius_spec() == blur_radius(coarse_radius as int)
                    &&& b.spatial_sigma_spec() == clamp(clamp(coarse_radius as int, 0, 50) * 1000, 100, 50000)
                    &&& b.color_sigma_spec() == 100
                    &&& b.spatial_spec() == weights@
                    &&& b.range_spec() == range@
                    &&& mode == SharpenMode::Bilateral
                },
            },
    {
        let coarse = match mode {
            SharpenMode::Gaussian => Coarse::Blur(Blur::new(coarse_radius, Mode::Gaussian, weights)),
            SharpenMode::Box => Coarse::Blur(Blur::new(coarse_radius, Mode::Box, weights)),
            SharpenMode::Median => Coarse::Blur(Blur::new(coarse_radius, Mode::Median, weights)),
            SharpenMode::Bilateral => Coarse::Bilateral(
                Bilateral::new(coarse_radius, clamp_i32(coarse_radius, 0, 50) * 1000, 50, weights, range),
            ),
        };
        Sharpen { mode, coarse_radius, render_fine_mask, coarse }
    }

    pub fn mode(&self) -> (r: SharpenMode)
        ensures
            r == self.mode_spec(),
    {
        self.mode
    }

    pub closed spec fn coarse_radius_spec(self) -> int {
        self.coarse_radius as int
    }

    /// The coarse radius as given, before the blur clamps it.
    pub fn coarse_radius(&self) -> (r: i32)
        ensures
            r == self.coarse_radius_spec(),
    {
        self.coarse_radius
    }
}

impl SampleRule for Sharpen {
    open spec fn well_formed(&self) -> bool {
        self.coarse_spec().well_formed()
    }

    open spec fn sample_spec(&self, img: RasterView, x: int, y: int, c: int) -> u8 {
        sharpen_level(
            img.at(x, y, c),
            self.coarse_spec().sample_spec(img, x, y, c) as int,
            self.mask_only(),
        ) as u8
    }

    fn sample(&self, img: &Raster, x: usize, y: usize, c: usize) -> (r: u8) {
        let o = img.sample(x, y, c) as i32;
        let k = self.coarse.sample(img, x, y, c) as i32;
        let fine = o - k;
        let v = if self.render_fine_mask {
            fine
        } else {
            let half = if fine >= 0 {
                fine / 2
            } else {
                -((-fine) / 2)
            };
            o + half
        };
        if v < 0 {
            0
        } else if v > 255 {
            255
        } else {
            v as u8
        }
    }
}

impl SharpenMode {
    /// The mode's name as a debug listing shows it.
    pub open spec fn name(self) -> Seq<char> {
        match self {
            SharpenMode::Gaussian => "Gaussian"@,
            SharpenMode::Box => "Box"@,
            SharpenMode::Median => "Median"@,
            SharpenMode::Bilateral => "Bilateral"@,
        }
    }

    pub fn name_str(&self) -> (r: &'static str)
        ensures
            r@ == self.name(),
    {
        match self {
            SharpenMode::Gaussian => "Gaussian",
            SharpenMode::Box => "Box",
            SharpenMode::Median => "Median",
            SharpenMode::Bilateral => "Bilateral",
        }
    }
}

impl Manipulate for Sharpen {
    open spec fn describe(&self) -> Seq<char> {
        "Sharpen -> mode: "@ + self.mode_spec().name()
    }

    fn apply(&self, img: &Raster) -> (r: Raster) {
        map_samples(self, img)
    }

    fn details_str(&self) -> (r: String) {
        "Sharpen -> mode: ".to_owned().concat(self.mode.name_str())
    }
}

} // verus!
