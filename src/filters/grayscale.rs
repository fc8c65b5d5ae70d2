use vstd::prelude::*;
use vstd::string::*;
use crate::imgarray::{Raster, RasterView};
use crate::filters::{Manipulate, SampleRule, rule_image, map_samples};

verus! {

/// The BT.709 luma of a pixel, in ten-thousandths:
/// `2126 R + 7152 G + 722 B`.
pub open spec fn luma_num(r: int, g: int, b: int) -> int {
    2126 * r + 7152 * g + 722 * b
}

/// The luma of a pixel rounded down to a whole level.
pub open spec fn luma(r: int, g: int, b: int) -> int {
    luma_num(r, g, b) / 10000
}

/// The luma of pixel `(x, y)` of `img`.
pub open spec fn pixel_luma(img: RasterView, x: int, y: int) -> int {
    luma(img.at(x, y, 0), img.at(x, y, 1), img.at(x, y, 2))
}

/// The luma of pixel `(x, y)`, a level in `[0, 255]`.
pub fn luma_at(img: &Raster, x: usize, y: usize) -> (r: u8)
    requires
        x < img@.width,
        y < img@.height,
    ensures
        r == pixel_luma(img@, x as int, y as int),
{
    let r = img.sample(x, y, 0) as u32;
    let g = img.sample(x, y, 1) as u32;
    let b = img.sample(x, y, 2) as u32;
    let l = (2126 * r + 7152 * g + 722 * b) / 10000;
    assert(l <= 255) by {
        assert(2126 * r + 7152 * g + 722 * b <= 2550000) by (nonlinear_arith)
            requires r <= 255, g <= 255, b <= 255;
    }
    l as u8
}

/// Replaces each pixel by its luma in all three channels.
pub struct Grayscale;

impl SampleRule for Grayscale {
    open spec fn well_formed(&self) -> bool {
        true
    }

    open spec fn sample_spec(&self, img: RasterView, x: int, y: int, c: int) -> u8 {
        pixel_luma(img, x, y) as u8
    }

    fn sample(&self, img: &Raster, x: usize, y: usize, c: usize) -> (r: u8) {
        luma_at(img, x, y)
    }
}

impl Grayscale {
    pub fn new() -> (r: Grayscale) {
        Grayscale
    }
}

/// A grayscale raster has the same level in all three channels of each
/// pixel.
pub proof fn lemma_grayscale_channels_equal(img: RasterView, x: int, y: int)
    requires
        0 <= x < img.width,
        0 <= y < img.height,
    ensures
        rule_image(Grayscale, img).at(x, y, 0) == rule_image(Grayscale, img).at(x, y, 1),
        rule_image(Grayscale, img).at(x, y, 1) == rule_image(Grayscale, img).at(x, y, 2),
{
}

/// Each pixel of `img` has equal levels in its three channels.
pub open spec fn is_gray(img: RasterView) -> bool {
    forall|x: int, y: int|
        0 <= x < img.width && 0 <= y < img.height ==> #[trigger] img.at(x, y, 0) == img.at(x, y, 1)
            && img.at(x, y, 1) == img.at(x, y, 2)
}

/// Grayscale leaves a raster that is already gray as it is.
pub proof fn lemma_grayscale_fixes_gray(img: RasterView)
    requires
        img.wf(),
        is_gray(img),
    ensures
        rule_image(Grayscale, img) == img,
{
    let out = rule_image(Grayscale, img);
    assert forall|k: (int, int, int)| out.px.dom().contains(k) implies out.px[k] == img.px[k] by {
        let v = img.at(k.0, k.1, 0);
        assert(img.at(k.0, k.1, 0) == img.at(k.0, k.1, 1) && img.at(k.0, k.1, 1) == img.at(k.0, k.1, 2));
        assert(luma_num(v, v, v) == 10000 * v);
        assert(img.px[k] == img.at(k.0, k.1, k.2));
    }
    assert(out.px =~= img.px);
}

impl Manipulate for Grayscale {
    open spec fn describe(&self) -> Seq<char> {
        "Grayscale"@
    }

    fn apply(&self, img: &Raster) -> (r: Raster) {
        map_samples(self, img)
    }

    fn details_str(&self) -> (r: String) {
        "Grayscale".to_owned()
    }
}

} // verus!
