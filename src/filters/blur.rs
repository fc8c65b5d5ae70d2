use vstd::prelude::*;
use vstd::string::*;
use crate::imgarray::{Raster, RasterView};
use crate::filters::{Manipulate, SampleRule, rule_image, map_samples};
use crate::linalg::{clamp, clamp_i32, median, median_spec, outer_product, count_ne, lemma_count_ne_concat, lemma_count_ne_one_exception, lemma_median_of_majority};
use crate::text::{nat_decimal, nat_text};

verus! {

/// The largest blur radius.
pub const MAX_RADIUS: i32 = 50;

/// The largest weight of a blur profile (one, in fixed point).
pub const MAX_WEIGHT: u32 = 65536;

/// Clamp-to-edge: the nearest index of `[0, n)` to `v`.
pub open spec fn edge(v: int, n: int) -> int {
    clamp(v, 0, n - 1)
}

/// Tap `(i, j)` of the `(2 rad + 1)`-wide window centred on `(x, y)`, in
/// channel `c`: the sample at offset `(i - rad, j - rad)`, clamped to the edge.
pub open spec fn tap(img: RasterView, rad: int, x: int, y: int, c: int, i: int, j: int) -> u8 {
    img.px[(edge(x + i - rad, img.width as int), edge(y + j - rad, img.height as int), c)]
}

/// The sum of the first `n` weights.
pub open spec fn weight_sum(w: Seq<u32>, n: int) -> int
    decreases n,
{
    if n <= 0 {
        0
    } else {
        weight_sum(w, n - 1) + w[n - 1]
    }
}

/// Row `i` of the window, first `n` taps, each weighted by `w[i] * w[j]`.
pub open spec fn row_sum(
    img: RasterView,
    w: Seq<u32>,
    rad: int,
    x: int,
    y: int,
    c: int,
    i: int,
    n: int,
) -> int
    decreases n,
{
    if n <= 0 {
        0
    } else {
        row_sum(img, w, rad, x, y, c, i, n - 1) + w[i] * w[n - 1] * tap(img, rad, x, y, c, i, n - 1)
    }
}

/// The first `n` rows of the window, weighted by the outer product of `w`
/// with itself.
pub open spec fn window_sum(img: RasterView, w: Seq<u32>, rad: int, x: int, y: int, c: int, n: int) -> int
    decreases n,
{
    if n <= 0 {
        0
    } else {
        window_sum(img, w, rad, x, y, c, n - 1) + row_sum(img, w, rad, x, y, c, n - 1, 2 * rad + 1)
    }
}

/// The blurred sample: the window weighted by the separable kernel
/// `w[i] * w[j]`, divided by the kernel's total `(sum w)^2`, rounded down and
/// capped at 255. A kernel of total 0 leaves the sample as it is.
pub open spec fn blur_level(img: RasterView, w: Seq<u32>, rad: int, x: int, y: int, c: int) -> int {
    let d = 2 * rad + 1;
    let den = weight_sum(w, d) * weight_sum(w, d);
    if den == 0 {
        img.at(x, y, c)
    } else {
        let q = window_sum(img, w, rad, x, y, c, d) / den;
        if q > 255 {
            255
        } else {
            q
        }
    }
}

/// Row `i` of the window, as a sequence.
pub open spec fn window_row(img: RasterView, rad: int, x: int, y: int, c: int, i: int) -> Seq<u8> {
    Seq::new((2 * rad + 1) as nat, |j: int| tap(img, rad, x, y, c, i, j))
}

/// The first `n` rows of the window, row after row.
pub open spec fn window_rows(img: RasterView, rad: int, x: int, y: int, c: int, n: int) -> Seq<u8>
    decreases n,
{
    if n <= 0 {
        Seq::empty()
    } else {
        window_rows(img, rad, x, y, c, n - 1) + window_row(img, rad, x, y, c, n - 1)
    }
}

/// The median of the window centred on `(x, y)` in channel `c`.
pub open spec fn median_level(img: RasterView, rad: int, x: int, y: int, c: int) -> int {
    median_spec(window_rows(img, rad, x, y, c, 2 * rad + 1))
}

/// The uniform profile of a box blur.
pub open spec fn box_profile(d: int) -> Seq<u32> {
    Seq::new(d as nat, |i: int| 1u32)
}

/// The window's index along an axis of length `n`, clamped to the edge.
fn edge_index(v: usize, i: usize, rad: usize, n: usize) -> (r: usize)
    requires
        v < n,
        n <= isize::MAX,
        i <= 2 * rad,
        rad <= 50,
    ensures
        r == edge(v + i - rad, n as int),
        r < n,
{
    if v + i < rad {
        0
    } else if v + i - rad >= n {
        n - 1
    } else {
        v + i - rad
    }
}

/// Tap `(i, j)` of the window centred on `(x, y)`.
pub fn tap_at(img: &Raster, rad: usize, x: usize, y: usize, c: usize, i: usize, j: usize) -> (r: u8)
    requires
        img@.wf(),
        x < img@.width,
        y < img@.height,
        c < 3,
        i <= 2 * rad,
        j <= 2 * rad,
        rad <= 50,
    ensures
        r == tap(img@, rad as int, x as int, y as int, c as int, i as int, j as int),
{
    let (w, h) = img.size();
    let xi = edge_index(x, i, rad, w);
    let yj = edge_index(y, j, rad, h);
    img.sample(xi, yj, c)
}

/// The sum of a profile.
pub fn profile_sum(w: &Vec<u32>) -> (r: u64)
    requires
        w.len() <= 101,
        forall|i: int| 0 <= i < w.len() ==> #[trigger] w[i] <= MAX_WEIGHT,
    ensures
        r == weight_sum(w@, w.len() as int),
        r <= 101 * MAX_WEIGHT,
{
    let mut s: u64 = 0;
    let mut i: usize = 0;
    while i < w.len()
        invariant
            i <= w.len(),
            w.len() <= 101,
            forall|k: int| 0 <= k < w.len() ==> #[trigger] w[k] <= MAX_WEIGHT,
            s == weight_sum(w@, i as int),
            s <= i * MAX_WEIGHT,
        decreases w.len() - i,
    {
        s = s + w[i] as u64;
        i += 1;
    }
    s
}

/// `k` is the outer product of `w` with itself.
pub open spec fn is_outer_square(k: Seq<Seq<u64>>, w: Seq<u32>) -> bool {
    &&& k.len() == w.len()
    &&& forall|i: int| 0 <= i < w.len() ==> #[trigger] k[i].len() == w.len()
    &&& forall|i: int, j: int| 0 <= i < w.len() && 0 <= j < w.len() ==> #[trigger] k[i][j] == w[i] * w[j]
}

/// The blurred sample at `(x, y)` in channel `c`, for the profile `w` whose
/// outer square is `kernel`.
pub fn weighted_level(
    img: &Raster,
    w: &Vec<u32>,
    kernel: &Vec<Vec<u64>>,
    rad: usize,
    x: usize,
    y: usize,
    c: usize,
) -> (r: u8)
    requires
        img@.wf(),
        x < img@.width,
        y < img@.height,
        c < 3,
        rad <= 50,
        w.len() == 2 * rad + 1,
        forall|i: int| 0 <= i < w.len() ==> #[trigger] w[i] <= MAX_WEIGHT,
        is_outer_square(kernel@.map_values(|row: Vec<u64>| row@), w@),
    ensures
        r == blur_level(img@, w@, rad as int, x as int, y as int, c as int),
{
    let d = 2 * rad + 1;
    let total = profile_sum(w);
    assert(total <= 6619136);
    assert(total * total <= 43812964712496) by (nonlinear_arith)
        requires total <= 6619136;
    let den = total * total;
    if den == 0 {
        return img.sample(x, y, c);
    }
    let bound: u64 = 65536 * 65536 * 255;
    let mut acc: u64 = 0;
    let mut i: usize = 0;
    while i < d
        invariant
            img@.wf(),
            x < img@.width,
            y < img@.height,
            c < 3,
            rad <= 50,
            d == 2 * rad + 1,
            w.len() == d,
            forall|k: int| 0 <= k < w.len() ==> #[trigger] w[k] <= MAX_WEIGHT,
            i <= d,
            is_outer_square(kernel@.map_values(|row: Vec<u64>| row@), w@),
            acc == window_sum(img@, w@, rad as int, x as int, y as int, c as int, i as int),
            acc <= i * d * bound,
            bound == 65536 * 65536 * 255,
        decreases d - i,
    {
        let mut racc: u64 = 0;
        let mut j: usize = 0;
        while j < d
            invariant
                img@.wf(),
                x < img@.width,
                y < img@.height,
                c < 3,
                rad <= 50,
                d == 2 * rad + 1,
                w.len() == d,
                forall|k: int| 0 <= k < w.len() ==> #[trigger] w[k] <= MAX_WEIGHT,
                i < d,
                j <= d,
                is_outer_square(kernel@.map_values(|row: Vec<u64>| row@), w@),
                racc == row_sum(img@, w@, rad as int, x as int, y as int, c as int, i as int, j as int),
                racc <= j * bound,
                bound == 65536 * 65536 * 255,
            decreases d - j,
        {
            let v = tap_at(img, rad, x, y, c, i, j) as u64;
            assert(w[i as int] <= MAX_WEIGHT && w[j as int] <= MAX_WEIGHT);
            assert(kernel@.map_values(|row: Vec<u64>| row@)[i as int] == kernel[i as int]@);
            let p = kernel[i][j];
            assert(p <= 65536 * 65536) by (nonlinear_arith)
                requires p == w[i as int] * w[j as int], w[i as int] <= 65536, w[j as int] <= 65536;
            assert(p * v <= bound) by (nonlinear_arith)
                requires p <= 65536 * 65536, v <= 255, bound == 65536 * 65536 * 255;
            let t = p * v;
            assert(racc + t <= (j + 1) * bound && (j + 1) * bound <= 101 * bound) by (nonlinear_arith)
                requires racc <= j * bound, t <= bound, j < d, d <= 101;
            racc = racc + t;
            j += 1;
        }
        assert(acc + racc <= (i + 1) * d * bound && (i + 1) * d * bound <= 101 * 101 * bound)
            by (nonlinear_arith)
            requires acc <= i * d * bound, racc <= d * bound, i < d, d <= 101;
        assert(bound == 1095216660480);
        assert(101 * 101 * bound == 11172305153556480) by (nonlinear_arith)
            requires bound == 1095216660480;
        acc = acc + racc;
        i += 1;
    }
    let q = acc / den;
    if q > 255 {
        255
    } else {
        q as u8
    }
}

/// The median of the window centred on `(x, y)` in channel `c`.
pub fn median_level_at(img: &Raster, rad: usize, x: usize, y: usize, c: usize) -> (r: u8)
    requires
        img@.wf(),
        x < img@.width,
        y < img@.height,
        c < 3,
        rad <= 50,
    ensures
        r == median_level(img@, rad as int, x as int, y as int, c as int),
{
    let d = 2 * rad + 1;
    let mut vals: Vec<u8> = Vec::new();
    let mut i: usize = 0;
    while i < d
        invariant
            img@.wf(),
            x < img@.width,
            y < img@.height,
            c < 3,
            rad <= 50,
            d == 2 * rad + 1,
            i <= d,
            vals@ == window_rows(img@, rad as int, x as int, y as int, c as int, i as int),
            vals.len() == i * d,
        decreases d - i,
    {
        let mut j: usize = 0;
        while j < d
            invariant
                img@.wf(),
                x < img@.width,
                y < img@.height,
                c < 3,
                rad <= 50,
                d == 2 * rad + 1,
                i < d,
                j <= d,
                vals@ == window_rows(img@, rad as int, x as int, y as int, c as int, i as int)
                    + window_row(img@, rad as int, x as int, y as int, c as int, i as int).take(j as int),
                vals.len() == i * d + j,
            decreases d - j,
        {
            assert(i * d + j + 1 <= 101 * 101) by (nonlinear_arith)
                requires i < d, j < d, d <= 101;
            let v = tap_at(img, rad, x, y, c, i, j);
            vals.push(v);
            assert(window_row(img@, rad as int, x as int, y as int, c as int, i as int).take(j as int + 1)
                =~= window_row(img@, rad as int, x as int, y as int, c as int, i as int).take(j as int).push(v));
            j += 1;
        }
        assert(window_row(img@, rad as int, x as int, y as int, c as int, i as int).take(d as int)
            =~= window_row(img@, rad as int, x as int, y as int, c as int, i as int));
        assert(i * d + d == (i + 1) * d) by (nonlinear_arith);
        i += 1;
    }
    assert(1 <= d * d <= 101 * 101) by (nonlinear_arith)
        requires 1 <= d <= 101;
    median(&mut vals)
}

/// The three kinds of blur.
#[derive(Clone, Copy, Debug, PartialEq, Eq, Structural)]
pub enum Mode {
    Gaussian,
    Box,
    Median,
}

/// A blur of the neighbourhood of each sample within a radius, with
/// clamp-to-edge borders; each channel is blurred on its own.
pub struct Blur {
    radius: usize,
    mode: Mode,
    weights: Vec<u32>,
    kernel: Vec<Vec<u64>>,
}

/// The blur radius `radius` clamped to `[0, 50]`.
pub open spec fn blur_radius(radius: int) -> int {
    clamp(radius, 0, 50)
}

/// The radius of a blur, clamped to `[0, 50]`.
pub fn clamp_radius(radius: i32) -> (r: usize)
    ensures
        r == blur_radius(radius as int),
        r <= 50,
{
    clamp_i32(radius, 0, MAX_RADIUS) as usize
}

impl Blur {
    pub closed spec fn radius_spec(self) -> int {
        self.radius as int
    }

    pub closed spec fn mode_spec(self) -> Mode {
        self.mode
    }

    /// The separable profile: `weights[i] * weights[j]` is the kernel's
    /// weight at offset `(i - radius, j - radius)`.
    pub closed spec fn profile(self) -> Seq<u32> {
        self.weights@
    }

    /// The kernel, the outer square of the profile.
    pub closed spec fn kernel_spec(self) -> Seq<Seq<u64>> {
        self.kernel@.map_values(|row: Vec<u64>| row@)
    }

    /// A blur of radius `radius` clamped to `[0, 50]`. A Gaussian blur weights
    /// its window by `gauss`, the Gaussian profile of that radius in fixed
    /// point (one is `MAX_WEIGHT`), which the other modes ignore: a box blur
    /// weights its window uniformly, a median blur takes its median.
    pub fn new(radius: i32, mode: Mode, gauss: Vec<u32>) -> (r: Blur)
        requires
            mode == Mode::Gaussian ==> gauss.len() == 2 * blur_radius(radius as int) + 1,
            mode == Mode::Gaussian ==> forall|i: int| 0 <= i < gauss.len() ==> #[trigger] gauss[i] <= MAX_WEIGHT,
        ensures
            r.radius_spec() == blur_radius(radius as int),
            r.mode_spec() == mode,
            mode == Mode::Gaussian ==> r.profile() == gauss@,
            r.well_formed(),
    {
        let rad = clamp_radius(radius);
        let weights = if mode == Mode::Gaussian {
            gauss
        } else {
            let mut ones: Vec<u32> = Vec::new();
            let mut i: usize = 0;
            while i < 2 * rad + 1
                invariant
                    rad <= 50,
                    i <= 2 * rad + 1,
                    ones@ == box_profile(i as int),
                decreases 2 * rad + 1 - i,
            {
                ones.push(1);
                assert(ones@ =~= box_profile(i as int + 1));
                i += 1;
            }
            ones
        };
        let kernel = outer_product(&weights, &weights);
        proof {
            let k = kernel@.map_values(|row: Vec<u64>| row@);
            assert forall|i: int| 0 <= i < weights.len() implies #[trigger] k[i].len() == weights.len() by {
                assert(kernel[i].len() == weights.len());
                assert(k[i] == kernel[i]@);
            }
            assert forall|i: int, j: int| 0 <= i < weights.len() && 0 <= j < weights.len() implies #[trigger] k[i][j]
                == weights[i] * weights[j] by {
                assert(kernel[i][j] == weights[i] * weights[j]);
                assert(k[i] == kernel[i]@);
            }
        }
        Blur { radius: rad, mode, weights, kernel }
    }

    pub fn radius(&self) -> (r: usize)
        ensures
            r == self.radius_spec(),
    {
        self.radius
    }

    pub fn mode(&self) -> (r: Mode)
        ensures
            r == self.mode_spec(),
    {
        self.mode
    }
}

impl SampleRule for Blur {
    open spec fn well_formed(&self) -> bool {
        &&& 0 <= self.radius_spec() <= 50
        &&& self.profile().len() == 2 * self.radius_spec() + 1
        &&& forall|i: int| 0 <= i < self.profile().len() ==> #[trigger] self.profile()[i] <= MAX_WEIGHT
        &&& self.mode_spec() == Mode::Box ==> self.profile() == box_profile(2 * self.radius_spec() + 1)
        &&& is_outer_square(self.kernel_spec(), self.profile())
    }

    open spec fn sample_spec(&self, img: RasterView, x: int, y: int, c: int) -> u8 {
        match self.mode_spec() {
            Mode::Gaussian => blur_level(img, self.profile(), self.radius_spec(), x, y, c) as u8,
            Mode::Box => blur_level(
                img,
                box_profile(2 * self.radius_spec() + 1),
                self.radius_spec(),
                x,
                y,
                c,
            ) as u8,
            Mode::Median => median_level(img, self.radius_spec(), x, y, c) as u8,
        }
    }

    fn sample(&self, img: &Raster, x: usize, y: usize, c: usize) -> (r: u8) {
        match self.mode {
            Mode::Median => median_level_at(img, self.radius, x, y, c),
            _ => weighted_level(img, &self.weights, &self.kernel, self.radius, x, y, c),
        }
    }
}

/// A box blur of radius 0 leaves a raster as it is.
pub proof fn lemma_box_radius_zero_identity(b: Blur, img: RasterView)
    requires
        b.radius_spec() == 0,
        b.mode_spec() == Mode::Box,
        img.wf(),
    ensures
        rule_image(b, img) == img,
{
    let out = rule_image(b, img);
    let w = box_profile(1);
    assert forall|k: (int, int, int)| out.px.dom().contains(k) implies out.px[k] == img.px[k] by {
        assert(weight_sum(w, 1) == 1) by {
            assert(weight_sum(w, 0) == 0);
        }
        assert(row_sum(img, w, 0, k.0, k.1, k.2, 0, 1) == tap(img, 0, k.0, k.1, k.2, 0, 0)) by {
            assert(row_sum(img, w, 0, k.0, k.1, k.2, 0, 0) == 0);
        }
        assert(window_sum(img, w, 0, k.0, k.1, k.2, 1) == tap(img, 0, k.0, k.1, k.2, 0, 0)) by {
            assert(window_sum(img, w, 0, k.0, k.1, k.2, 0) == 0);
        }
    }
    assert(out.px =~= img.px);
}

impl Mode {
    /// The mode's name as a debug listing shows it.
    pub open spec fn name(self) -> Seq<char> {
        match self {
            Mode::Gaussian => "Gaussian"@,
            Mode::Box => "Box"@,
            Mode::Median => "Median"@,
        }
    }

    pub fn name_str(&self) -> (r: &'static str)
        ensures
            r@ == self.name(),
    {
        match self {
            Mode::Gaussian => "Gaussian",
            Mode::Box => "Box",
            Mode::Median => "Median",
        }
    }
}

impl Manipulate for Blur {
    open spec fn describe(&self) -> Seq<char> {
        "Blur -> radius: "@ + nat_text(self.radius_spec() as nat) + ", mode: "@ + self.mode_spec().name()
    }

    fn apply(&self, img: &Raster) -> (r: Raster) {
        map_samples(self, img)
    }

    fn details_str(&self) -> (r: String) {
        "Blur -> radius: ".to_owned().concat(nat_decimal(self.radius as u64).as_str()).concat(", mode: ").concat(
            self.mode.name_str(),
        )
    }
}

/// Every pixel of `img` but `(x0, y0)` has the background level `bg[c]` in
/// each channel `c`.
pub open spec fn single_outlier(img: RasterView, x0: int, y0: int, bg: Seq<u8>) -> bool {
    &&& bg.len() == 3
    &&& forall|k: (int, int, int)|
        img.px.dom().contains(k) && !(k.0 == x0 && k.1 == y0) ==> #[trigger] img.px[k] == bg[k.2]
}

proof fn lemma_window_rows_len(img: RasterView, rad: int, x: int, y: int, c: int, n: int)
    requires
        0 <= n,
        0 <= rad,
    ensures
        window_rows(img, rad, x, y, c, n).len() == n * (2 * rad + 1),
    decreases n,
{
    if n > 0 {
        lemma_window_rows_len(img, rad, x, y, c, n - 1);
        assert(window_row(img, rad, x, y, c, n - 1).len() == 2 * rad + 1);
        assert((n - 1) * (2 * rad + 1) + (2 * rad + 1) == n * (2 * rad + 1)) by (nonlinear_arith);
    } else {
        assert(0 * (2 * rad + 1) == 0);
    }
}

proof fn lemma_window_outlier_count(
    img: RasterView,
    rad: int,
    x: int,
    y: int,
    c: int,
    x0: int,
    y0: int,
    bg: Seq<u8>,
    n: int,
)
    requires
        img.wf(),
        0 <= x < img.width,
        0 <= y < img.height,
        0 <= c < 3,
        0 <= rad,
        0 < x0 < img.width - 1,
        0 < y0 < img.height - 1,
        single_outlier(img, x0, y0, bg),
        0 <= n,
    ensures
        count_ne(window_rows(img, rad, x, y, c, n), bg[c] as int) <= (if 0 <= x0 - x + rad < n {
            1int
        } else {
            0int
        }),
    decreases n,
{
    if n > 0 {
        let i = n - 1;
        let row = window_row(img, rad, x, y, c, i);
        lemma_window_outlier_count(img, rad, x, y, c, x0, y0, bg, n - 1);
        lemma_count_ne_concat(window_rows(img, rad, x, y, c, n - 1), row, bg[c] as int);
        let w = img.width as int;
        let h = img.height as int;
        if i == x0 - x + rad {
            assert forall|j: int| 0 <= j < row.len() && j != y0 - y + rad implies #[trigger] row[j] == bg[c] by {
                let k = (edge(x + i - rad, w), edge(y + j - rad, h), c);
                assert(img.px.dom().contains(k));
            }
            lemma_count_ne_one_exception(row, bg[c] as int, y0 - y + rad);
        } else {
            assert forall|j: int| 0 <= j < row.len() && j != -1 implies #[trigger] row[j] == bg[c] by {
                let k = (edge(x + i - rad, w), edge(y + j - rad, h), c);
                assert(img.px.dom().contains(k));
            }
            lemma_count_ne_one_exception(row, bg[c] as int, -1);
        }
    }
}

/// A median blur of radius at least 1 removes a single outlier pixel that a
/// constant background surrounds: every output sample is the background's
/// level in its channel.
pub proof fn lemma_median_removes_outlier(b: Blur, img: RasterView, x0: int, y0: int, bg: Seq<u8>)
    requires
        b.well_formed(),
        b.mode_spec() == Mode::Median,
        b.radius_spec() >= 1,
        img.wf(),
        0 < x0 < img.width - 1,
        0 < y0 < img.height - 1,
        single_outlier(img, x0, y0, bg),
    ensures
        forall|k: (int, int, int)| #[trigger]
            rule_image(b, img).px.dom().contains(k) ==> rule_image(b, img).px[k] == bg[k.2],
{
    let rad = b.radius_spec();
    let d = 2 * rad + 1;
    assert forall|k: (int, int, int)| #[trigger] rule_image(b, img).px.dom().contains(k) implies rule_image(
        b,
        img,
    ).px[k] == bg[k.2] by {
        let s = window_rows(img, rad, k.0, k.1, k.2, d);
        lemma_window_outlier_count(img, rad, k.0, k.1, k.2, x0, y0, bg, d);
        lemma_window_rows_len(img, rad, k.0, k.1, k.2, d);
        let m = 2 * rad * rad + 2 * rad;
        assert(d * d == 2 * m + 1 && m >= 4) by (nonlinear_arith)
            requires d == 2 * rad + 1, rad >= 1, m == 2 * rad * rad + 2 * rad;
        assert((2 * m + 1) % 2 == 1);
        lemma_median_of_majority(s, bg[k.2]);
    }
}

} // verus!
