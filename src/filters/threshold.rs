use vstd::prelude::*;
use vstd::string::*;
use crate::imgarray::{Raster, RasterView};
use crate::filters::{Manipulate, SampleRule, rule_image, map_samples};
use crate::filters::grayscale::luma_num;
use crate::text::{decimal, decimal_text};

verus! {

/// Binarises a raster: a pixel whose BT.709 luma exceeds the level turns
/// white, any other black.
pub struct Threshold {
    threshold: u8,
}

impl SampleRule for Threshold {
    open spec fn well_formed(&self) -> bool {
        true
    }

    open spec fn sample_spec(&self, img: RasterView, x: int, y: int, c: int) -> u8 {
        if luma_num(img.at(x, y, 0), img.at(x, y, 1), img.at(x, y, 2)) > 10000 * self.level() {
            255
        } else {
            0
        }
    }

    fn sample(&self, img: &Raster, x: usize, y: usize, c: usize) -> (r: u8) {
        let r = img.sample(x, y, 0) as u32;
        let g = img.sample(x, y, 1) as u32;
        let b = img.sample(x, y, 2) as u32;
        if 2126 * r + 7152 * g + 722 * b > 10000 * self.threshold as u32 {
            255
        } else {
            0
        }
    }
}

impl Threshold {
    /// The level is clamped to `[0, 255]`.
    pub fn new(threshold: i32) -> (r: Threshold)
        ensures
            r.level() == (if threshold < 0 {
                0
            } else if threshold > 255 {
                255
            } else {
                threshold
            }),
    {
        let t: i32 = if threshold < 0 {
            0
        } else if threshold > 255 {
            255
        } else {
            threshold
        };
        Threshold { threshold: t as u8 }
    }

    pub closed spec fn level(self) -> int {
        self.threshold as int
    }

    pub fn threshold(&self) -> (r: u8)
        ensures
            r == self.level(),
    {
        self.threshold
    }
}

/// A thresholded raster is binary: every sample is 0 or 255.
pub proof fn lemma_threshold_binary(t: Threshold, img: RasterView)
    ensures
        forall|k: (int, int, int)| #[trigger] rule_image(t, img).px.dom().contains(k) ==> rule_image(t, img).px[k] == 0
            || rule_image(t, img).px[k] == 255,
{
}

impl Manipulate for Threshold {
    open spec fn describe(&self) -> Seq<char> {
        "Threshold -> threshold: "@ + decimal_text(self.level())
    }

    fn apply(&self, img: &Raster) -> (r: Raster) {
        map_samples(self, img)
    }

    fn details_str(&self) -> (r: String) {
        "Threshold -> threshold: ".to_owned().concat(decimal(self.threshold as i64).as_str())
    }
}

} // verus!
