use vstd::prelude::*;

verus! {

/// The storage of a raster: an ndarray buffer of shape `(width, height, 3)`.
#[verifier::external_body]
pub struct Samples {
    arr: ndarray::Array3<u8>,
}

/// What a buffer holds: the sample at each index `(x, y, channel)`.
pub uninterp spec fn samples_of(s: Samples) -> Map<(int, int, int), u8>;

/// The index `k` addresses a sample of a `w` by `h` raster.
pub open spec fn in_box(k: (int, int, int), w: int, h: int) -> bool {
    0 <= k.0 < w && 0 <= k.1 < h && 0 <= k.2 < 3
}

/// A buffer of `w` by `h` pixels of three samples each can be allocated:
/// its sample count, and the product of its non-zero axis lengths, fit in
/// `isize`.
pub open spec fn fits_memory(w: int, h: int) -> bool {
    &&& w * h * 3 <= isize::MAX
    &&& w * 3 <= isize::MAX
    &&& h * 3 <= isize::MAX
}

impl Samples {
    /// Relies on ndarray's `Array3::zeros`: a buffer of the given shape whose
    /// samples are all 0. It panics when the product of the non-zero axis
    /// lengths overflows `isize`.
    #[verifier::external_body]
    fn zeros(w: usize, h: usize) -> (r: Samples)
        requires
            fits_memory(w as int, h as int),
        ensures
            samples_of(r) == Map::new(
                |k: (int, int, int)| in_box(k, w as int, h as int),
                |k: (int, int, int)| 0u8,
            ),
    {
        Samples { arr: ndarray::Array3::<u8>::zeros((w, h, 3)) }
    }

    /// Relies on ndarray's indexing by `[x, y, c]`, which reads one sample and
    /// panics outside the shape.
    #[verifier::external_body]
    fn get(&self, x: usize, y: usize, c: usize) -> (r: u8)
        requires
            samples_of(*self).dom().contains((x as int, y as int, c as int)),
        ensures
            r == samples_of(*self)[(x as int, y as int, c as int)],
    {
        self.arr[[x, y, c]]
    }

    /// Relies on ndarray's mutable indexing by `[x, y, c]`, which overwrites one
    /// sample and panics outside the shape.
    #[verifier::external_body]
    fn set(&mut self, x: usize, y: usize, c: usize, v: u8)
        requires
            samples_of(*old(self)).dom().contains((x as int, y as int, c as int)),
        ensures
            samples_of(*final(self)) == samples_of(*old(self)).insert(
                (x as int, y as int, c as int),
                v,
            ),
        no_unwind
    {
        self.arr[[x, y, c]] = v;
    }

    /// Relies on ndarray's `Clone` for owned arrays: a new buffer with the same
    /// shape and samples.
    #[verifier::external_body]
    fn duplicate(&self) -> (r: Samples)
        ensures
            samples_of(r) == samples_of(*self),
    {
        Samples { arr: self.arr.clone() }
    }
}

/// The mathematical content of a raster: its size and its samples.
pub struct RasterView {
    pub width: nat,
    pub height: nat,
    pub px: Map<(int, int, int), u8>,
}

impl RasterView {
    /// Every index of the raster, and no other, holds a sample.
    pub open spec fn wf(self) -> bool {
        forall|k: (int, int, int)| #[trigger]
            self.px.dom().contains(k) <==> in_box(k, self.width as int, self.height as int)
    }

    /// The sample of channel `c` at pixel `(x, y)`.
    pub open spec fn at(self, x: int, y: int, c: int) -> int {
        self.px[(x, y, c)] as int
    }

    /// Same size as `other`.
    pub open spec fn same_size(self, other: RasterView) -> bool {
        self.width == other.width && self.height == other.height
    }
}

/// A raster of `w` by `h` pixels whose samples are given by `f`.
pub open spec fn raster_of(w: nat, h: nat, f: spec_fn(int, int, int) -> u8) -> RasterView {
    RasterView {
        width: w,
        height: h,
        px: Map::new(
            |k: (int, int, int)| in_box(k, w as int, h as int),
            |k: (int, int, int)| f(k.0, k.1, k.2),
        ),
    }
}

/// An RGB raster of `width` by `height` pixels with 8-bit samples, held in an
/// ndarray buffer.
pub struct Raster {
    width: usize,
    height: usize,
    buf: Samples,
}

impl View for Raster {
    type V = RasterView;

    closed spec fn view(&self) -> RasterView {
        RasterView { width: self.width as nat, height: self.height as nat, px: samples_of(self.buf) }
    }
}

impl Raster {
    #[verifier::type_invariant]
    spec fn inv(self) -> bool {
        &&& fits_memory(self.width as int, self.height as int)
        &&& forall|k: (int, int, int)| #[trigger]
            samples_of(self.buf).dom().contains(k) <==> in_box(k, self.width as int, self.height as int)
    }

    /// The raster's width and height; its samples fill that size, and the
    /// size fits in memory.
    pub fn size(&self) -> (r: (usize, usize))
        ensures
            r.0 == self@.width,
            r.1 == self@.height,
            self@.wf(),
            fits_memory(self@.width as int, self@.height as int),
    {
        proof {
            use_type_invariant(self);
        }
        (self.width, self.height)
    }

    /// A black raster of `width` by `height` pixels.
    pub fn new(width: usize, height: usize) -> (r: Raster)
        requires
            fits_memory(width as int, height as int),
        ensures
            r@ == raster_of(width as nat, height as nat, |x: int, y: int, c: int| 0u8),
            r@.wf(),
    {
        let buf = Samples::zeros(width, height);
        let r = Raster { width, height, buf };
        assert(r@.px =~= raster_of(width as nat, height as nat, |x: int, y: int, c: int| 0u8).px);
        r
    }

    /// The 1 by 1 black raster that stands for "no image".
    pub fn blank() -> (r: Raster)
        ensures
            r@ == raster_of(1, 1, |x: int, y: int, c: int| 0u8),
    {
        Raster::new(1, 1)
    }

    pub fn width(&self) -> (r: usize)
        ensures
            r == self@.width,
    {
        self.width
    }

    pub fn height(&self) -> (r: usize)
        ensures
            r == self@.height,
    {
        self.height
    }

    /// The sample of channel `c` at pixel `(x, y)`.
    pub fn sample(&self, x: usize, y: usize, c: usize) -> (r: u8)
        requires
            x < self@.width,
            y < self@.height,
            c < 3,
        ensures
            r == self@.at(x as int, y as int, c as int),
    {
        proof {
            use_type_invariant(self);
        }
        self.buf.get(x, y, c)
    }

    /// Overwrites the sample of channel `c` at pixel `(x, y)`.
    pub fn set_sample(&mut self, x: usize, y: usize, c: usize, v: u8)
        requires
            x < old(self)@.width,
            y < old(self)@.height,
            c < 3,
        ensures
            final(self)@ == (RasterView {
                px: old(self)@.px.insert((x as int, y as int, c as int), v),
                ..old(self)@
            }),
            final(self)@.wf(),
    {
        proof {
            use_type_invariant(&*self);
        }
        self.buf.set(x, y, c, v);
    }

    /// A new raster with the same size and samples.
    pub fn duplicate(&self) -> (r: Raster)
        ensures
            r@ == self@,
    {
        proof {
            use_type_invariant(self);
        }
        Raster { width: self.width, height: self.height, buf: self.buf.duplicate() }
    }
}

} // verus!
