pub mod invert;
pub mod grayscale;
pub mod threshold;
pub mod sepia;
pub mod lighting;
pub mod huerotate;
pub mod blur;
pub mod bilateral;
pub mod sharpen;
pub mod vignette;
pub mod compose;

use vstd::prelude::*;
use crate::imgarray::{Raster, RasterView, raster_of};
use crate::filters::threshold::Threshold;
use crate::filters::invert::Invert;
use crate::filters::grayscale::Grayscale;
use crate::filters::huerotate::Huerotate;
use crate::filters::lighting::Lighting;
use crate::filters::vignette::Vignette;
use crate::filters::blur::Blur;
use crate::filters::sharpen::Sharpen;
use crate::filters::bilateral::Bilateral;
use crate::filters::sepia::Sepia;

verus! {

/// A transform that computes each output sample from the input raster.
pub trait SampleRule {
    /// The parameters are in their documented ranges.
    spec fn well_formed(&self) -> bool;

    /// The output sample of channel `c` at pixel `(x, y)`.
    spec fn sample_spec(&self, img: RasterView, x: int, y: int, c: int) -> u8;

    fn sample(&self, img: &Raster, x: usize, y: usize, c: usize) -> (r: u8)
        requires
            self.well_formed(),
            img@.wf(),
            x < img@.width,
            y < img@.height,
            c < 3,
        ensures
            r == self.sample_spec(img@, x as int, y as int, c as int),
    ;
}

/// A filter as a chain uses it: applied to a whole raster, and described in
/// words.
pub trait Manipulate: SampleRule + Sized {
    /// A one-line description of the filter and its parameters.
    spec fn describe(&self) -> Seq<char>;

    /// A new raster: `img` under this filter. The input is left as it is.
    fn apply(&self, img: &Raster) -> (r: Raster)
        requires
            self.well_formed(),
        ensures
            r@ == rule_image(*self, img@),
    ;

    fn details_str(&self) -> (r: String)
        ensures
            r@ == self.describe(),
    ;
}

/// The raster that `rule` makes of `img`: same size, each sample by the rule.
pub open spec fn rule_image<T: SampleRule>(rule: T, img: RasterView) -> RasterView {
    raster_of(img.width, img.height, |x: int, y: int, c: int| rule.sample_spec(img, x, y, c))
}

/// Computes every sample of a new raster of `img`'s size by `rule`.
pub fn map_samples<T: SampleRule>(rule: &T, img: &Raster) -> (r: Raster)
    requires
        rule.well_formed(),
    ensures
        r@ == rule_image(*rule, img@),
        r@.wf(),
{
    let (w, h) = img.size();
    let mut out = Raster::new(w, h);
    let mut x: usize = 0;
    while x < w
        invariant
            rule.well_formed(),
            img@.wf(),
            out@.wf(),
            w == img@.width,
            h == img@.height,
            out@.same_size(img@),
            x <= w,
            forall|k: (int, int, int)| #![trigger out@.px[k]]
                out@.px.dom().contains(k) && k.0 < x
                    ==> out@.px[k] == rule.sample_spec(img@, k.0, k.1, k.2),
        decreases w - x,
    {
        let mut y: usize = 0;
        while y < h
            invariant
                rule.well_formed(),
                img@.wf(),
                out@.wf(),
                w == img@.width,
                h == img@.height,
                out@.same_size(img@),
                x < w,
                y <= h,
                forall|k: (int, int, int)| #![trigger out@.px[k]]
                    out@.px.dom().contains(k) && (k.0 < x || (k.0 == x && k.1 < y))
                        ==> out@.px[k] == rule.sample_spec(img@, k.0, k.1, k.2),
            decreases h - y,
        {
            let mut c: usize = 0;
            while c < 3
                invariant
                    rule.well_formed(),
                    img@.wf(),
                    out@.wf(),
                    w == img@.width,
                    h == img@.height,
                    out@.same_size(img@),
                    x < w,
                    y < h,
                    c <= 3,
                    forall|k: (int, int, int)| #![trigger out@.px[k]]
                        out@.px.dom().contains(k) && (k.0 < x || (k.0 == x && k.1 < y) || (k.0
                            == x && k.1 == y && k.2 < c))
                            ==> out@.px[k] == rule.sample_spec(img@, k.0, k.1, k.2),
                decreases 3 - c,
            {
                let v = rule.sample(img, x, y, c);
                out.set_sample(x, y, c, v);
                c += 1;
            }
            y += 1;
        }
        x += 1;
    }
    assert(out@.px =~= rule_image(*rule, img@).px);
    out
}

/// One pixel transform of the closed set a chain is made of.
pub enum Filter {
    Threshold(Threshold),
    Invert(Invert),
    Grayscale(Grayscale),
    Huerotate(Huerotate),
    Lighting(Lighting),
    Vignette(Vignette),
    Blur(Blur),
    Sharpen(Sharpen),
    Bilateral(Bilateral),
    Sepia(Sepia),
}

impl SampleRule for Filter {
    open spec fn well_formed(&self) -> bool {
        match self {
            Filter::Threshold(f) => f.well_formed(),
            Filter::Invert(f) => f.well_formed(),
            Filter::Grayscale(f) => f.well_formed(),
            Filter::Huerotate(f) => f.well_formed(),
            Filter::Lighting(f) => f.well_formed(),
            Filter::Vignette(f) => f.well_formed(),
            Filter::Blur(f) => f.well_formed(),
            Filter::Sharpen(f) => f.well_formed(),
            Filter::Bilateral(f) => f.well_formed(),
            Filter::Sepia(f) => f.well_formed(),
        }
    }

    open spec fn sample_spec(&self, img: RasterView, x: int, y: int, c: int) -> u8 {
        match self {
            Filter::Threshold(f) => f.sample_spec(img, x, y, c),
            Filter::Invert(f) => f.sample_spec(img, x, y, c),
            Filter::Grayscale(f) => f.sample_spec(img, x, y, c),
            Filter::Huerotate(f) => f.sample_spec(img, x, y, c),
            Filter::Lighting(f) => f.sample_spec(img, x, y, c),
            Filter::Vignette(f) => f.sample_spec(img, x, y, c),
            Filter::Blur(f) => f.sample_spec(img, x, y, c),
            Filter::Sharpen(f) => f.sample_spec(img, x, y, c),
            Filter::Bilateral(f) => f.sample_spec(img, x, y, c),
            Filter::Sepia(f) => f.sample_spec(img, x, y, c),
        }
    }

    fn sample(&self, img: &Raster, x: usize, y: usize, c: usize) -> (r: u8) {
        match self {
            Filter::Threshold(f) => f.sample(img, x, y, c),
            Filter::Invert(f) => f.sample(img, x, y, c),
            Filter::Grayscale(f) => f.sample(img, x, y, c),
            Filter::Huerotate(f) => f.sample(img, x, y, c),
            Filter::Lighting(f) => f.sample(img, x, y, c),
            Filter::Vignette(f) => f.sample(img, x, y, c),
            Filter::Blur(f) => f.sample(img, x, y, c),
            Filter::Sharpen(f) => f.sample(img, x, y, c),
            Filter::Bilateral(f) => f.sample(img, x, y, c),
            Filter::Sepia(f) => f.sample(img, x, y, c),
        }
    }
}


impl Manipulate for Filter {
    open spec fn describe(&self) -> Seq<char> {
        match self {
            Filter::Threshold(f) => f.describe(),
            Filter::Invert(f) => f.describe(),
            Filter::Grayscale(f) => f.describe(),
            Filter::Huerotate(f) => f.describe(),
            Filter::Lighting(f) => f.describe(),
            Filter::Vignette(f) => f.describe(),
            Filter::Blur(f) => f.describe(),
            Filter::Sharpen(f) => f.describe(),
            Filter::Bilateral(f) => f.describe(),
            Filter::Sepia(f) => f.describe(),
        }
    }

    fn apply(&self, img: &Raster) -> (r: Raster) {
        map_samples(self, img)
    }

    fn details_str(&self) -> (r: String) {
        match self {
            Filter::Threshold(f) => f.details_str(),
            Filter::Invert(f) => f.details_str(),
            Filter::Grayscale(f) => f.details_str(),
            Filter::Huerotate(f) => f.details_str(),
            Filter::Lighting(f) => f.details_str(),
            Filter::Vignette(f) => f.details_str(),
            Filter::Blur(f) => f.details_str(),
            Filter::Sharpen(f) => f.details_str(),
            Filter::Bilateral(f) => f.details_str(),
            Filter::Sepia(f) => f.details_str(),
        }
    }
}

} // verus!
