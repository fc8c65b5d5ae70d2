use vstd::prelude::*;
use vstd::string::*;
use crate::imgarray::{Raster, RasterView};
use crate::filters::{Manipulate, SampleRule, rule_image, map_samples};

verus! {

/// The sepia matrix, in thousandths: row `c` gives output channel `c` as a
/// combination of the input R, G and B.
pub open spec fn sepia_coef(c: int, i: int) -> int {
    if c == 0 {
        if i == 0 { 393 } else if i == 1 { 769 } else { 189 }
    } else if c == 1 {
        if i == 0 { 349 } else if i == 1 { 686 } else { 168 }
    } else {
        if i == 0 { 272 } else if i == 1 { 534 } else { 131 }
    }
}

/// Channel `c` of the sepia tone of a pixel: the weighted sum rounded down and
/// capped at 255.
pub open spec fn sepia_level(r: int, g: int, b: int, c: int) -> int {
    let v = (sepia_coef(c, 0) * r + sepia_coef(c, 1) * g + sepia_coef(c, 2) * b) / 1000;
    if v > 255 {
        255
    } else {
        v
    }
}

/// Gives a raster a brownish, aged tone through a fixed colour matrix.
pub struct Sepia;

impl SampleRule for Sepia {
    open spec fn well_formed(&self) -> bool {
        true
    }

    open spec fn sample_spec(&self, img: RasterView, x: int, y: int, c: int) -> u8 {
        sepia_level(img.at(x, y, 0), img.at(x, y, 1), img.at(x, y, 2), c) as u8
    }

    fn sample(&self, img: &Raster, x: usize, y: usize, c: usize) -> (r: u8) {
        let r = img.sample(x, y, 0) as u32;
        let g = img.sample(x, y, 1) as u32;
        let b = img.sample(x, y, 2) as u32;
        let (kr, kg, kb): (u32, u32, u32) = if c == 0 {
            (393, 769, 189)
        } else if c == 1 {
            (349, 686, 168)
        } else {
            (272, 534, 131)
        };
        assert(kr * r + kg * g + kb * b <= 1000 * 3 * 255) by (nonlinear_arith)
            requires r <= 255, g <= 255, b <= 255, kr <= 1000, kg <= 1000, kb <= 1000;
        let v = (kr * r + kg * g + kb * b) / 1000;
        if v > 255 {
            255
        } else {
            v as u8
        }
    }
}

impl Sepia {
    pub fn new() -> (r: Sepia) {
        Sepia
    }
}

impl Manipulate for Sepia {
    open spec fn describe(&self) -> Seq<char> {
        "Sepia"@
    }

    fn apply(&self, img: &Raster) -> (r: Raster) {
        map_samples(self, img)
    }

    fn details_str(&self) -> (r: String) {
        "Sepia".to_owned()
    }
}

/// A pixel whose red and green are full keeps them full under sepia,
/// whatever its blue: on white the red and green channels saturate at once,
/// and a second pass leaves them there.
pub proof fn lemma_sepia_keeps_full_red_green(b: int)
    requires
        0 <= b <= 255,
    ensures
        sepia_level(255, 255, b, 0) == 255,
        sepia_level(255, 255, b, 1) == 255,
{
}

} // verus!
