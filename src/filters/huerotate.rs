use vstd::prelude::*;
use vstd::string::*;
use crate::imgarray::{Raster, RasterView};
use crate::filters::{Manipulate, SampleRule, rule_image, map_samples};
use crate::linalg::{clamp, clamp_i32, round_clamp, round_clamp_byte};
use crate::text::{decimal, decimal_text};

verus! {

/// One million: the scale of the sine and cosine a hue rotation holds.
pub const UNIT: i32 = 1_000_000;

/// The constant part of the hue-rotation matrix, in thousandths, by input
/// channel.
pub open spec fn hue_base(i: int) -> int {
    if i == 0 { 299 } else if i == 1 { 587 } else { 114 }
}

/// The part of the hue-rotation matrix that scales with the cosine, in
/// thousandths: output channel `c`, input channel `i`.
pub open spec fn hue_cos(c: int, i: int) -> int {
    if c == 0 {
        if i == 0 { 701 } else if i == 1 { -587 } else { -114 }
    } else if c == 1 {
        if i == 0 { -299 } else if i == 1 { 413 } else { -114 }
    } else {
        if i == 0 { -300 } else if i == 1 { -588 } else { 886 }
    }
}

/// The part of the hue-rotation matrix that scales with the sine, in
/// thousandths: output channel `c`, input channel `i`.
pub open spec fn hue_sin(c: int, i: int) -> int {
    if c == 0 {
        if i == 0 { 168 } else if i == 1 { 330 } else { -497 }
    } else if c == 1 {
        if i == 0 { -328 } else if i == 1 { 35 } else { 292 }
    } else {
        if i == 0 { 1250 } else if i == 1 { -1050 } else { -203 }
    }
}

/// Entry `(c, i)` of the matrix for sine `s` and cosine `k` given in
/// millionths; the entry is in billionths.
pub open spec fn hue_coef(s: int, k: int, c: int, i: int) -> int {
    hue_base(i) * 1_000_000 + hue_cos(c, i) * k + hue_sin(c, i) * s
}

/// Output channel `c` of a hue rotation of the pixel `(r, g, b)`: the matrix
/// row applied, rounded and clamped to `[0, 255]`.
pub open spec fn hue_level(s: int, k: int, r: int, g: int, b: int, c: int) -> int {
    round_clamp(
        hue_coef(s, k, c, 0) * r + hue_coef(s, k, c, 1) * g + hue_coef(s, k, c, 2) * b,
        1_000_000_000,
    )
}

/// Rotates the hue of every pixel through a fixed linear map of RGB.
/// The angle's sine and cosine are held in millionths.
pub struct Huerotate {
    deg: i32,
    sin: i32,
    cos: i32,
}

/// Row `c` of the matrix, in the order R, G, B.
fn coefficients(s: i64, k: i64, c: usize) -> (r: (i64, i64, i64))
    requires
        -1_000_000 <= s <= 1_000_000,
        -1_000_000 <= k <= 1_000_000,
        c < 3,
    ensures
        r.0 == hue_coef(s as int, k as int, c as int, 0),
        r.1 == hue_coef(s as int, k as int, c as int, 1),
        r.2 == hue_coef(s as int, k as int, c as int, 2),
        -3_000_000_000 <= r.0 <= 3_000_000_000,
        -3_000_000_000 <= r.1 <= 3_000_000_000,
        -3_000_000_000 <= r.2 <= 3_000_000_000,
{
    let (cr, cg, cb, sr, sg, sb): (i64, i64, i64, i64, i64, i64) = if c == 0 {
        (701, -587, -114, 168, 330, -497)
    } else if c == 1 {
        (-299, 413, -114, -328, 35, 292)
    } else {
        (-300, -588, 886, 1250, -1050, -203)
    };
    assert(-1_000_000_000 <= cr * k <= 1_000_000_000) by (nonlinear_arith)
        requires -1000 <= cr <= 1000, -1_000_000 <= k <= 1_000_000;
    assert(-1_000_000_000 <= cg * k <= 1_000_000_000) by (nonlinear_arith)
        requires -1000 <= cg <= 1000, -1_000_000 <= k <= 1_000_000;
    assert(-1_000_000_000 <= cb * k <= 1_000_000_000) by (nonlinear_arith)
        requires -1000 <= cb <= 1000, -1_000_000 <= k <= 1_000_000;
    assert(-1_250_000_000 <= sr * s <= 1_250_000_000) by (nonlinear_arith)
        requires -1250 <= sr <= 1250, -1_000_000 <= s <= 1_000_000;
    assert(-1_250_000_000 <= sg * s <= 1_250_000_000) by (nonlinear_arith)
        requires -1250 <= sg <= 1250, -1_000_000 <= s <= 1_000_000;
    assert(-1_250_000_000 <= sb * s <= 1_250_000_000) by (nonlinear_arith)
        requires -1250 <= sb <= 1250, -1_000_000 <= s <= 1_000_000;
    (
        299_000_000 + cr * k + sr * s,
        587_000_000 + cg * k + sg * s,
        114_000_000 + cb * k + sb * s,
    )
}

impl Huerotate {
    pub closed spec fn degrees_spec(self) -> int {
        self.deg as int
    }

    pub closed spec fn sin_spec(self) -> int {
        self.sin as int
    }

    pub closed spec fn cos_spec(self) -> int {
        self.cos as int
    }

    /// A rotation by `deg` degrees, whose sine and cosine the caller gives in
    /// millionths; each is clamped to `[-1000000, 1000000]`.
    pub fn new(deg: i32, sin: i32, cos: i32) -> (r: Huerotate)
        ensures
            r.degrees_spec() == deg,
            r.sin_spec() == clamp(sin as int, -1_000_000, 1_000_000),
            r.cos_spec() == clamp(cos as int, -1_000_000, 1_000_000),
    {
        Huerotate { deg, sin: clamp_i32(sin, -UNIT, UNIT), cos: clamp_i32(cos, -UNIT, UNIT) }
    }

    pub fn degrees(&self) -> (r: i32)
        ensures
            r == self.degrees_spec(),
    {
        self.deg
    }
}

impl SampleRule for Huerotate {
    open spec fn well_formed(&self) -> bool {
        -1_000_000 <= self.sin_spec() <= 1_000_000 && -1_000_000 <= self.cos_spec() <= 1_000_000
    }

    open spec fn sample_spec(&self, img: RasterView, x: int, y: int, c: int) -> u8 {
        hue_level(
            self.sin_spec(),
            self.cos_spec(),
            img.at(x, y, 0),
            img.at(x, y, 1),
            img.at(x, y, 2),
            c,
        ) as u8
    }

    fn sample(&self, img: &Raster, x: usize, y: usize, c: usize) -> (r: u8) {
        let r = img.sample(x, y, 0) as i64;
        let g = img.sample(x, y, 1) as i64;
        let b = img.sample(x, y, 2) as i64;
        let (kr, kg, kb) = coefficients(self.sin as i64, self.cos as i64, c);
        assert(-3_000_000_000 * 255 <= kr * r <= 3_000_000_000 * 255) by (nonlinear_arith)
            requires -3_000_000_000 <= kr <= 3_000_000_000, 0 <= r <= 255;
        assert(-3_000_000_000 * 255 <= kg * g <= 3_000_000_000 * 255) by (nonlinear_arith)
            requires -3_000_000_000 <= kg <= 3_000_000_000, 0 <= g <= 255;
        assert(-3_000_000_000 * 255 <= kb * b <= 3_000_000_000 * 255) by (nonlinear_arith)
            requires -3_000_000_000 <= kb <= 3_000_000_000, 0 <= b <= 255;
        round_clamp_byte(kr * r + kg * g + kb * b, 1_000_000_000)
    }
}

impl Manipulate for Huerotate {
    open spec fn describe(&self) -> Seq<char> {
        "Huerotate -> degrees: "@ + decimal_text(self.degrees_spec())
    }

    fn apply(&self, img: &Raster) -> (r: Raster) {
        map_samples(self, img)
    }

    fn details_str(&self) -> (r: String) {
        "Huerotate -> degrees: ".to_owned().concat(decimal(self.deg as i64).as_str())
    }
}

} // verus!
