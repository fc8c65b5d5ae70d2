use vstd::prelude::*;
use vstd::string::*;
use crate::imgarray::{Raster, RasterView};
use crate::filters::{Manipulate, SampleRule, rule_image, map_samples};
use crate::filters::blur::{tap, tap_at, blur_radius, clamp_radius, is_outer_square, MAX_WEIGHT};
use crate::linalg::outer_product;
use crate::text::{milli_decimal, milli_text, nat_decimal, nat_text};
use crate::linalg::{clamp, clamp_i32};

verus! {

/// The absolute difference of two levels.
pub open spec fn level_gap(a: int, b: int) -> int {
    if a >= b {
        a - b
    } else {
        b - a
    }
}

/// The weight of tap `(i, j)`: the spatial weight `s[i] * s[j]` times the
/// range weight of its gap to the centre sample.
pub open spec fn tap_weight(
    img: RasterView,
    s: Seq<u32>,
    g: Seq<u32>,
    rad: int,
    x: int,
    y: int,
    c: int,
    i: int,
    j: int,
) -> int {
    s[i] * s[j] * g[level_gap(tap(img, rad, x, y, c, i, j) as int, img.at(x, y, c))]
}

/// Over the first `n` taps of row `i`: the sum of the weights, and the sum of
/// the weighted samples.
pub open spec fn bil_row(
    img: RasterView,
    s: Seq<u32>,
    g: Seq<u32>,
    rad: int,
    x: int,
    y: int,
    c: int,
    i: int,
    n: int,
) -> (int, int)
    decreases n,
{
    if n <= 0 {
        (0, 0)
    } else {
        let prev = bil_row(img, s, g, rad, x, y, c, i, n - 1);
        let w = tap_weight(img, s, g, rad, x, y, c, i, n - 1);
        (prev.0 + w, prev.1 + w * tap(img, rad, x, y, c, i, n - 1))
    }
}

/// Over the first `n` rows of the window: the sum of the weights, and the
/// sum of the weighted samples.
pub open spec fn bil_window(
    img: RasterView,
    s: Seq<u32>,
    g: Seq<u32>,
    rad: int,
    x: int,
    y: int,
    c: int,
    n: int,
) -> (int, int)
    decreases n,
{
    if n <= 0 {
        (0, 0)
    } else {
        let prev = bil_window(img, s, g, rad, x, y, c, n - 1);
        let row = bil_row(img, s, g, rad, x, y, c, n - 1, 2 * rad + 1);
        (prev.0 + row.0, prev.1 + row.1)
    }
}

/// The bilateral level: the weighted mean of the window, rounded down and
/// capped at 255. A window whose weights all vanish keeps the centre sample.
pub open spec fn bilateral_level(img: RasterView, s: Seq<u32>, g: Seq<u32>, rad: int, x: int, y: int, c: int) -> int {
    let sums = bil_window(img, s, g, rad, x, y, c, 2 * rad + 1);
    if sums.0 == 0 {
        img.at(x, y, c)
    } else {
        let q = sums.1 / sums.0;
        if q > 255 {
            255
        } else {
            q
        }
    }
}

/// The bilateral level at `(x, y)` in channel `c`.
fn bilateral_level_at(
    img: &Raster,
    s: &Vec<u32>,
    kernel: &Vec<Vec<u64>>,
    g: &Vec<u32>,
    rad: usize,
    x: usize,
    y: usize,
    c: usize,
) -> (r: u8)
    requires
        img@.wf(),
        x < img@.width,
        y < img@.height,
        c < 3,
        rad <= 50,
        s.len() == 2 * rad + 1,
        g.len() == 256,
        forall|i: int| 0 <= i < s.len() ==> #[trigger] s[i] <= MAX_WEIGHT,
        forall|i: int| 0 <= i < g.len() ==> #[trigger] g[i] <= MAX_WEIGHT,
        is_outer_square(kernel@.map_values(|row: Vec<u64>| row@), s@),
    ensures
        r == bilateral_level(img@, s@, g@, rad as int, x as int, y as int, c as int),
{
    let d = 2 * rad + 1;
    let centre = img.sample(x, y, c);
    let wmax: u128 = 65536 * 65536 * 65536;
    let mut den: u128 = 0;
    let mut num: u128 = 0;
    let mut i: usize = 0;
    while i < d
        invariant
            img@.wf(),
            x < img@.width,
            y < img@.height,
            c < 3,
            rad <= 50,
            d == 2 * rad + 1,
            s.len() == d,
            g.len() == 256,
            forall|k: int| 0 <= k < s.len() ==> #[trigger] s[k] <= MAX_WEIGHT,
            forall|k: int| 0 <= k < g.len() ==> #[trigger] g[k] <= MAX_WEIGHT,
            centre == img@.at(x as int, y as int, c as int),
            wmax == 65536 * 65536 * 65536,
            i <= d,
            is_outer_square(kernel@.map_values(|row: Vec<u64>| row@), s@),
            (den as int, num as int) == bil_window(img@, s@, g@, rad as int, x as int, y as int, c as int, i as int),
            den <= i * d * wmax,
            num <= i * d * wmax * 255,
        decreases d - i,
    {
        let mut rden: u128 = 0;
        let mut rnum: u128 = 0;
        let mut j: usize = 0;
        while j < d
            invariant
                img@.wf(),
                x < img@.width,
                y < img@.height,
                c < 3,
                rad <= 50,
                d == 2 * rad + 1,
                s.len() == d,
                g.len() == 256,
                forall|k: int| 0 <= k < s.len() ==> #[trigger] s[k] <= MAX_WEIGHT,
                forall|k: int| 0 <= k < g.len() ==> #[trigger] g[k] <= MAX_WEIGHT,
                centre == img@.at(x as int, y as int, c as int),
                wmax == 65536 * 65536 * 65536,
                i < d,
                j <= d,
                is_outer_square(kernel@.map_values(|row: Vec<u64>| row@), s@),
                (rden as int, rnum as int) == bil_row(img@, s@, g@, rad as int, x as int, y as int, c as int, i as int, j as int),
                rden <= j * wmax,
                rnum <= j * wmax * 255,
            decreases d - j,
        {
            let v = tap_at(img, rad, x, y, c, i, j);
            let gap = if v >= centre { v - centre } else { centre - v };
            let gw = g[gap as usize] as u128;
            assert(s[i as int] <= MAX_WEIGHT && s[j as int] <= MAX_WEIGHT && g[gap as int] <= MAX_WEIGHT);
            assert(kernel@.map_values(|row: Vec<u64>| row@)[i as int] == kernel[i as int]@);
            let p = kernel[i][j] as u128;
            assert(p <= 65536 * 65536) by (nonlinear_arith)
                requires p == s[i as int] * s[j as int], s[i as int] <= 65536, s[j as int] <= 65536;
            assert(p * gw <= wmax) by (nonlinear_arith)
                requires p <= 65536 * 65536, gw <= 65536, wmax == 65536 * 65536 * 65536;
            let w = p * gw;
            let vv = v as u128;
            assert(w * vv <= wmax * 255) by (nonlinear_arith)
                requires w <= wmax, vv <= 255;
            let wv = w * vv;
            assert(rden + w <= (j + 1) * wmax && rnum + wv <= (j + 1) * wmax * 255) by (nonlinear_arith)
                requires rden <= j * wmax, rnum <= j * wmax * 255, w <= wmax, wv <= wmax * 255;
            assert((j + 1) * wmax * 255 <= 101 * wmax * 255) by (nonlinear_arith)
                requires j < d, d <= 101;
            rden = rden + w;
            rnum = rnum + wv;
            j += 1;
        }
        assert(den + rden <= (i + 1) * d * wmax && num + rnum <= (i + 1) * d * wmax * 255)
            by (nonlinear_arith)
            requires den <= i * d * wmax, num <= i * d * wmax * 255, rden <= d * wmax, rnum <= d * wmax * 255;
        assert((i + 1) * d * wmax * 255 <= 101 * 101 * wmax * 255) by (nonlinear_arith)
            requires i < d, d <= 101;
        assert((i + 1) * d * wmax <= 101 * 101 * wmax) by (nonlinear_arith)
            requires i < d, d <= 101;
        assert(101 * 101 * wmax * 255 == 732188190543477473280) by (nonlinear_arith)
            requires wmax == 281474976710656;
        den = den + rden;
        num = num + rnum;
        i += 1;
    }
    if den == 0 {
        centre
    } else {
        let q = num / den;
        if q > 255 {
            255
        } else {
            q as u8
        }
    }
}

/// Edge-preserving smoothing: each sample becomes the mean of its window,
/// weighted by distance and by likeness of level to the centre.
pub struct Bilateral {
    radius: usize,
    spatial_sigma: u32,
    color_sigma: u32,
    spatial: Vec<u32>,
    kernel: Vec<Vec<u64>>,
    range: Vec<u32>,
}

impl Bilateral {
    pub closed spec fn radius_spec(self) -> int {
        self.radius as int
    }

    /// The spatial profile: `spatial[i] * spatial[j]` weights offset
    /// `(i - radius, j - radius)`.
    pub closed spec fn spatial_spec(self) -> Seq<u32> {
        self.spatial@
    }

    /// The spatial kernel, the outer square of the spatial profile.
    pub closed spec fn kernel_spec(self) -> Seq<Seq<u64>> {
        self.kernel@.map_values(|row: Vec<u64>| row@)
    }

    /// The range weights, indexed by the gap between a tap and the centre.
    pub closed spec fn range_spec(self) -> Seq<u32> {
        self.range@
    }

    /// The spatial sigma, in thousandths.
    pub closed spec fn spatial_sigma_spec(self) -> int {
        self.spatial_sigma as int
    }

    /// The intensity sigma, in thousandths.
    pub closed spec fn color_sigma_spec(self) -> int {
        self.color_sigma as int
    }

    /// A bilateral filter of radius `radius` clamped to `[0, 50]`, with the
    /// spatial and intensity sigmas given in thousandths and each clamped to
    /// `[0.1, 50]`. `spatial` is the Gaussian profile of that radius for the
    /// spatial sigma, and `range` the Gaussian weight of each gap `0..=255`
    /// (on the unit scale) for the intensity sigma, both in fixed point (one
    /// is `MAX_WEIGHT`).
    pub fn new(
        radius: i32,
        spatial_sigma: i32,
        color_sigma: i32,
        spatial: Vec<u32>,
        range: Vec<u32>,
    ) -> (r: Bilateral)
        requires
            spatial.len() == 2 * blur_radius(radius as int) + 1,
            range.len() == 256,
            forall|i: int| 0 <= i < spatial.len() ==> #[trigger] spatial[i] <= MAX_WEIGHT,
            forall|i: int| 0 <= i < range.len() ==> #[trigger] range[i] <= MAX_WEIGHT,
        ensures
            r.radius_spec() == blur_radius(radius as int),
            r.spatial_sigma_spec() == clamp(spatial_sigma as int, 100, 50000),
            r.color_sigma_spec() == clamp(color_sigma as int, 100, 50000),
            r.spatial_spec() == spatial@,
            r.range_spec() == range@,
            r.well_formed(),
    {
        let kernel = outer_product(&spatial, &spatial);
        proof {
            let k = kernel@.map_values(|row: Vec<u64>| row@);
            assert forall|i: int| 0 <= i < spatial.len() implies #[trigger] k[i].len() == spatial.len() by {
                assert(kernel[i].len() == spatial.len());
                assert(k[i] == kernel[i]@);
            }
            assert forall|i: int, j: int| 0 <= i < spatial.len() && 0 <= j < spatial.len() implies #[trigger] k[i][j]
                == spatial[i] * spatial[j] by {
                assert(kernel[i][j] == spatial[i] * spatial[j]);
                assert(k[i] == kernel[i]@);
            }
        }
        Bilateral {
            radius: clamp_radius(radius),
            spatial_sigma: clamp_i32(spatial_sigma, 100, 50000) as u32,
            color_sigma: clamp_i32(color_sigma, 100, 50000) as u32,
            spatial,
            kernel,
            range,
        }
    }

    pub fn radius(&self) -> (r: usize)
        ensures
            r == self.radius_spec(),
    {
        self.radius
    }
}

impl SampleRule for Bilateral {
    open spec fn well_formed(&self) -> bool {
        &&& 0 <= self.radius_spec() <= 50
        &&& self.spatial_spec().len() == 2 * self.radius_spec() + 1
        &&& self.range_spec().len() == 256
        &&& forall|i: int| 0 <= i < self.spatial_spec().len() ==> #[trigger] self.spatial_spec()[i] <= MAX_WEIGHT
        &&& forall|i: int| 0 <= i < self.range_spec().len() ==> #[trigger] self.range_spec()[i] <= MAX_WEIGHT
        &&& is_outer_square(self.kernel_spec(), self.spatial_spec())
        &&& 100 <= self.spatial_sigma_spec() <= 50000
        &&& 100 <= self.color_sigma_spec() <= 50000
    }

    open spec fn sample_spec(&self, img: RasterView, x: int, y: int, c: int) -> u8 {
        bilateral_level(img, self.spatial_spec(), self.range_spec(), self.radius_spec(), x, y, c) as u8
    }

    fn sample(&self, img: &Raster, x: usize, y: usize, c: usize) -> (r: u8) {
        bilateral_level_at(img, &self.spatial, &self.kernel, &self.range, self.radius, x, y, c)
    }
}

impl Manipulate for Bilateral {
    open spec fn describe(&self) -> Seq<char> {
        "Bilateral filter -> radius: "@ + nat_text(self.radius_spec() as nat) + ", spatial sigma: "@
            + milli_text(self.spatial_sigma_spec() as nat) + ", color sigma: "@ + milli_text(
            self.color_sigma_spec() as nat,
        )
    }

    fn apply(&self, img: &Raster) -> (r: Raster) {
        map_samples(self, img)
    }

    fn details_str(&self) -> (r: String) {
        "Bilateral filter -> radius: ".to_owned().concat(nat_decimal(self.radius as u64).as_str()).concat(
            ", spatial sigma: ",
        ).concat(milli_decimal(self.spatial_sigma as u64).as_str()).concat(", color sigma: ").concat(
            milli_decimal(self.color_sigma as u64).as_str(),
        )
    }
}

} // verus!
