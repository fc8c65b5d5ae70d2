use vstd::prelude::*;
use vstd::string::*;
use crate::imgarray::{Raster, RasterView};
use crate::filters::{Manipulate, SampleRule, rule_image, map_samples};

verus! {

/// The colour negative of a raster: every sample `v` becomes `255 - v`.
pub struct Invert;

impl SampleRule for Invert {
    open spec fn well_formed(&self) -> bool {
        true
    }

    open spec fn sample_spec(&self, img: RasterView, x: int, y: int, c: int) -> u8 {
        (255 - img.at(x, y, c)) as u8
    }

    fn sample(&self, img: &Raster, x: usize, y: usize, c: usize) -> (r: u8) {
        255 - img.sample(x, y, c)
    }
}

impl Invert {
    pub fn new() -> (r: Invert) {
        Invert
    }
}

/// Inverting twice gives back the raster, sample for sample.
pub proof fn lemma_invert_involution(img: RasterView)
    requires
        img.wf(),
    ensures
        rule_image(Invert, rule_image(Invert, img)) == img,
{
    let once = rule_image(Invert, img);
    let twice = rule_image(Invert, once);
    assert(twice.px =~= img.px);
}

impl Manipulate for Invert {
    open spec fn describe(&self) -> Seq<char> {
        "Color invert"@
    }

    fn apply(&self, img: &Raster) -> (r: Raster) {
        map_samples(self, img)
    }

    fn details_str(&self) -> (r: String) {
        "Color invert".to_owned()
    }
}

} // verus!
