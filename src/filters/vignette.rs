use vstd::prelude::*;
use vstd::string::*;
use crate::imgarray::{Raster, RasterView};
use crate::filters::{Manipulate, SampleRule, rule_image, map_samples};
use crate::filters::blur::MAX_WEIGHT;
use crate::linalg::{clamp, clamp_i32};
use crate::text::{decimal, decimal_text};

verus! {

/// The largest of the first `n` weights, or 0 for none.
pub open spec fn seq_max(s: Seq<u32>, n: int) -> int
    decreases n,
{
    if n <= 0 {
        0
    } else {
        let m = seq_max(s, n - 1);
        if s[n - 1] > m {
            s[n - 1] as int
        } else {
            m
        }
    }
}

/// Weight `i` of a profile, 0 past its end.
pub open spec fn weight_at(s: Seq<u32>, i: int) -> int {
    if 0 <= i < s.len() {
        s[i] as int
    } else {
        0
    }
}

/// A sample `v` at a point of mask weight `m / top` under `opacity` percent:
/// the mask shifted up by `1 - opacity`, capped at 1, times `v`, rounded down.
/// A mask of top 0 leaves the sample as it is.
pub open spec fn vignette_level(v: int, m: int, top: int, opacity: int) -> int {
    let den = 100 * top;
    if den == 0 {
        v
    } else {
        let num = 100 * m + (100 - opacity) * top;
        let capped = if num > den {
            den
        } else {
            num
        };
        v * capped / den
    }
}

/// The largest weight of a profile.
fn profile_max(s: &Vec<u32>) -> (r: u32)
    ensures
        r == seq_max(s@, s.len() as int),
{
    let mut m: u32 = 0;
    let mut i: usize = 0;
    while i < s.len()
        invariant
            i <= s.len(),
            m == seq_max(s@, i as int),
        decreases s.len() - i,
    {
        if s[i] > m {
            m = s[i];
        }
        i += 1;
    }
    m
}

/// Darkens a raster towards its borders through a Gaussian mask, normalised
/// so that its brightest point is 1.
pub struct Vignette {
    radius: i32,
    opacity: i32,
    cols: Vec<u32>,
    rows: Vec<u32>,
    col_max: u32,
    row_max: u32,
}

impl Vignette {
    pub closed spec fn radius_spec(self) -> int {
        self.radius as int
    }

    pub closed spec fn opacity_spec(self) -> int {
        self.opacity as int
    }

    /// The Gaussian profile across the width.
    pub closed spec fn cols_spec(self) -> Seq<u32> {
        self.cols@
    }

    /// The Gaussian profile across the height.
    pub closed spec fn rows_spec(self) -> Seq<u32> {
        self.rows@
    }

    /// A vignette of `radius` and `opacity` percent, each clamped to
    /// `[0, 100]`. `cols` and `rows` are the Gaussian profiles across the width
    /// and the height of the raster it is meant for, for a sigma of that
    /// length times the radius, in fixed point (at most `MAX_WEIGHT`); the mask
    /// at `(x, y)` is `cols[x] * rows[y]` over its largest value.
    pub fn new(radius: i32, opacity: i32, cols: Vec<u32>, rows: Vec<u32>) -> (r: Vignette)
        requires
            forall|i: int| 0 <= i < cols.len() ==> #[trigger] cols[i] <= MAX_WEIGHT,
            forall|i: int| 0 <= i < rows.len() ==> #[trigger] rows[i] <= MAX_WEIGHT,
        ensures
            r.radius_spec() == clamp(radius as int, 0, 100),
            r.opacity_spec() == clamp(opacity as int, 0, 100),
            r.cols_spec() == cols@,
            r.rows_spec() == rows@,
            r.well_formed(),
    {
        let col_max = profile_max(&cols);
        let row_max = profile_max(&rows);
        proof {
            lemma_max_bound(cols@, cols.len() as int);
            lemma_max_bound(rows@, rows.len() as int);
        }
        Vignette {
            radius: clamp_i32(radius, 0, 100),
            opacity: clamp_i32(opacity, 0, 100),
            cols,
            rows,
            col_max,
            row_max,
        }
    }

    pub fn radius(&self) -> (r: i32)
        ensures
            r == self.radius_spec(),
    {
        self.radius
    }

    pub fn opacity(&self) -> (r: i32)
        ensures
            r == self.opacity_spec(),
    {
        self.opacity
    }
}

proof fn lemma_max_bound(s: Seq<u32>, n: int)
    requires
        n <= s.len(),
        forall|i: int| 0 <= i < s.len() ==> #[trigger] s[i] <= MAX_WEIGHT,
    ensures
        0 <= seq_max(s, n) <= MAX_WEIGHT,
    decreases n,
{
    if n > 0 {
        lemma_max_bound(s, n - 1);
    }
}

impl SampleRule for Vignette {
    open spec fn well_formed(&self) -> bool {
        &&& 0 <= self.opacity_spec() <= 100
        &&& forall|i: int| 0 <= i < self.cols_spec().len() ==> #[trigger] self.cols_spec()[i] <= MAX_WEIGHT
        &&& forall|i: int| 0 <= i < self.rows_spec().len() ==> #[trigger] self.rows_spec()[i] <= MAX_WEIGHT
        &&& self.maxima() == (
            seq_max(self.cols_spec(), self.cols_spec().len() as int),
            seq_max(self.rows_spec(), self.rows_spec().len() as int),
        )
    }

    open spec fn sample_spec(&self, img: RasterView, x: int, y: int, c: int) -> u8 {
        vignette_level(
            img.at(x, y, c),
            weight_at(self.cols_spec(), x) * weight_at(self.rows_spec(), y),
            seq_max(self.cols_spec(), self.cols_spec().len() as int) * seq_max(
                self.rows_spec(),
                self.rows_spec().len() as int,
            ),
            self.opacity_spec(),
        ) as u8
    }

    fn sample(&self, img: &Raster, x: usize, y: usize, c: usize) -> (r: u8) {
        let v = img.sample(x, y, c) as u64;
        let a = if x < self.cols.len() {
            self.cols[x] as u64
        } else {
            0
        };
        let b = if y < self.rows.len() {
            self.rows[y] as u64
        } else {
            0
        };
        proof {
            lemma_max_bound(self.cols@, self.cols.len() as int);
            lemma_max_bound(self.rows@, self.rows.len() as int);
            if x < self.cols.len() {
                assert(self.cols[x as int] <= MAX_WEIGHT);
            }
            if y < self.rows.len() {
                assert(self.rows[y as int] <= MAX_WEIGHT);
            }
        }
        let am = self.col_max as u64;
        let bm = self.row_max as u64;
        assert(a * b <= 65536 * 65536 && am * bm <= 65536 * 65536) by (nonlinear_arith)
            requires a <= 65536, b <= 65536, am <= 65536, bm <= 65536;
        let m = a * b;
        let top = am * bm;
        let den = 100 * top;
        if den == 0 {
            return v as u8;
        }
        let op = self.opacity as u64;
        assert((100 - op) * top <= 100 * 65536 * 65536) by (nonlinear_arith)
            requires op <= 100, top <= 65536 * 65536;
        let num = 100 * m + (100 - op) * top;
        let capped = if num > den {
            den
        } else {
            num
        };
        assert(v * capped <= 255 * den) by (nonlinear_arith)
            requires v <= 255, capped <= den;
        let q = v * capped / den;
        assert(q <= v) by (nonlinear_arith)
            requires q == (v * capped) as int / (den as int), capped <= den, den > 0;
        q as u8
    }
}

impl Vignette {
    /// The largest weight of each profile.
    pub closed spec fn maxima(self) -> (int, int) {
        (self.col_max as int, self.row_max as int)
    }
}

impl Manipulate for Vignette {
    open spec fn describe(&self) -> Seq<char> {
        "Vignette -> radius: "@ + decimal_text(self.radius_spec()) + "%, opacity: "@ + decimal_text(
            self.opacity_spec(),
        ) + "%"@
    }

    fn apply(&self, img: &Raster) -> (r: Raster) {
        map_samples(self, img)
    }

    fn details_str(&self) -> (r: String) {
        "Vignette -> radius: ".to_owned().concat(decimal(self.radius as i64).as_str()).concat(
            "%, opacity: ",
        ).concat(decimal(self.opacity as i64).as_str()).concat("%")
    }
}

} // verus!
