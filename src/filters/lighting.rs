use vstd::prelude::*;
use vstd::string::*;
use crate::imgarray::{Raster, RasterView};
use crate::filters::{Manipulate, SampleRule, rule_image, map_samples};
use crate::linalg::{clamp, clamp_i32, round_clamp, round_clamp_byte};
use crate::text::{decimal, decimal_text};

verus! {

/// A sample `v` under brightness `b` and contrast `k`: with the contrast factor
/// `f = 259 (k + 255) / (255 (259 - k))`, the level `f (v - 128) + 128 + b`
/// rounded and clamped to `[0, 255]`.
pub open spec fn lighting_level(b: int, k: int, v: int) -> int {
    round_clamp(259 * (k + 255) * (v - 128) + (128 + b) * (255 * (259 - k)), 255 * (259 - k))
}

/// Brightness and contrast adjustment.
pub struct Lighting {
    brightness: i32,
    contrast: i32,
}

impl Lighting {
    pub closed spec fn brightness_spec(self) -> int {
        self.brightness as int
    }

    pub closed spec fn contrast_spec(self) -> int {
        self.contrast as int
    }

    /// Brightness and contrast are each clamped to `[-255, 255]`, which keeps
    /// the contrast factor finite.
    pub fn new(brightness: i32, contrast: i32) -> (r: Lighting)
        ensures
            r.brightness_spec() == clamp(brightness as int, -255, 255),
            r.contrast_spec() == clamp(contrast as int, -255, 255),
    {
        Lighting { brightness: clamp_i32(brightness, -255, 255), contrast: clamp_i32(contrast, -255, 255) }
    }

    pub fn brightness(&self) -> (r: i32)
        ensures
            r == self.brightness_spec(),
    {
        self.brightness
    }

    pub fn contrast(&self) -> (r: i32)
        ensures
            r == self.contrast_spec(),
    {
        self.contrast
    }
}

impl SampleRule for Lighting {
    open spec fn well_formed(&self) -> bool {
        -255 <= self.brightness_spec() <= 255 && -255 <= self.contrast_spec() <= 255
    }

    open spec fn sample_spec(&self, img: RasterView, x: int, y: int, c: int) -> u8 {
        lighting_level(self.brightness_spec(), self.contrast_spec(), img.at(x, y, c)) as u8
    }

    fn sample(&self, img: &Raster, x: usize, y: usize, c: usize) -> (r: u8) {
        let v = img.sample(x, y, c) as i64;
        let b = self.brightness as i64;
        let k = self.contrast as i64;
        let d = 255 * (259 - k);
        assert(-259 * 510 * 128 <= 259 * (k + 255) * (v - 128) <= 259 * 510 * 128) by (nonlinear_arith)
            requires -255 <= k <= 255, 0 <= v <= 255;
        assert(-127 * 255 * 514 <= (128 + b) * d <= 383 * 255 * 514) by (nonlinear_arith)
            requires -255 <= b <= 255, d == 255 * (259 - k), -255 <= k <= 255;
        let t = 259 * (k + 255) * (v - 128) + (128 + b) * d;
        round_clamp_byte(t, d)
    }
}

impl Manipulate for Lighting {
    open spec fn describe(&self) -> Seq<char> {
        "Lighting -> brightness: "@ + decimal_text(self.brightness_spec()) + ", contrast: "@
            + decimal_text(self.contrast_spec())
    }

    fn apply(&self, img: &Raster) -> (r: Raster) {
        map_samples(self, img)
    }

    fn details_str(&self) -> (r: String) {
        "Lighting -> brightness: ".to_owned().concat(decimal(self.brightness as i64).as_str()).concat(
            ", contrast: ",
        ).concat(decimal(self.contrast as i64).as_str())
    }
}

} // verus!
