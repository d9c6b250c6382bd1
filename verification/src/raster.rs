//! Pixel buffers: eight-bit RGBA, four samples for each pixel (red, green,
//! blue, alpha), rows from the top, pixels from the left.

use vstd::prelude::*;

verus! {

/// The value of every sample of an opaque white pixel.
pub const WHITE: u8 = 255;

/// What a [`Raster`] holds: its size and its samples in storage order.
pub struct RasterView {
    pub width: nat,
    pub height: nat,
    pub data: Seq<u8>,
}

impl RasterView {
    /// There are exactly four samples for each pixel.
    pub open spec fn wf(self) -> bool {
        self.data.len() == 4 * self.width * self.height
    }

    /// The pixel at column `x` of row `y` exists.
    pub open spec fn contains(self, x: int, y: int) -> bool {
        0 <= x < self.width && 0 <= y < self.height
    }

    /// Where sample `c` of the pixel at column `x` of row `y` is stored.
    pub open spec fn index_of(self, x: int, y: int, c: int) -> int {
        4 * (y * self.width + x) + c
    }

    /// Sample `c` of the pixel at column `x` of row `y`.
    pub open spec fn sample(self, x: int, y: int, c: int) -> u8 {
        self.data[self.index_of(x, y, c)]
    }
}

/// An image in memory.
#[derive(Debug)]
pub struct Raster {
    width: u32,
    height: u32,
    data: Vec<u8>,
}

impl View for Raster {
    type V = RasterView;

    closed spec fn view(&self) -> RasterView {
        RasterView { width: self.width as nat, height: self.height as nat, data: self.data@ }
    }
}

impl Raster {
    #[verifier::type_invariant]
    closed spec fn inv(&self) -> bool {
        self@.wf()
    }

    /// Takes over `data` as an image of `width` by `height` pixels, if it
    /// holds exactly four samples for each of them.
    pub fn from_raw(width: u32, height: u32, data: Vec<u8>) -> (r: Option<Raster>)
        ensures
            r is Some <==> data@.len() == 4 * width * height,
            r matches Some(img) ==> img@ == (RasterView {
                width: width as nat,
                height: height as nat,
                data: data@,
            }),
    {
        assert(4 * width * height == 4 * (width * height) && 0 <= width * height
            <= 0xffff_ffff_0000_0000) by (nonlinear_arith)
            requires
                0 <= width <= 0xffff_ffff,
                0 <= height <= 0xffff_ffff,
        ;
        let expected: u128 = 4 * (width as u128 * height as u128);
        if data.len() as u128 == expected {
            Some(Raster { width, height, data })
        } else {
            None
        }
    }

    /// Makes an image of samples that are known to match its size.
    pub(crate) fn assemble(width: u32, height: u32, data: Vec<u8>) -> (r: Raster)
        requires
            data@.len() == 4 * width * height,
        ensures
            r@ == (RasterView { width: width as nat, height: height as nat, data: data@ }),
            r@.wf(),
    {
        Raster { width, height, data }
    }

    pub fn width(&self) -> (w: u32)
        ensures
            w == self@.width,
    {
        self.width
    }

    pub fn height(&self) -> (h: u32)
        ensures
            h == self@.height,
    {
        self.height
    }

    /// The samples in storage order.
    pub fn as_raw(&self) -> (data: &Vec<u8>)
        ensures
            data@ == self@.data,
            self@.wf(),
    {
        proof {
            use_type_invariant(self);
        }
        &self.data
    }

    /// Gives up the image for its samples.
    pub fn into_raw(self) -> (data: Vec<u8>)
        ensures
            data@ == self@.data,
            self@.wf(),
    {
        proof {
            use_type_invariant(&self);
        }
        self.data
    }
}

/// In a buffer of rows of `width` pixels, the sample stored at
/// `4 * (y * width + x) + c` belongs to column `x` of row `y`, and to no other
/// pixel.
pub proof fn lemma_index_of(width: int, x: int, y: int, c: int)
    requires
        0 <= x < width,
        0 <= y,
        0 <= c < 4,
    ensures
        ({
            let i = 4 * (y * width + x) + c;
            &&& i >= 0
            &&& i % 4 == c
            &&& (i / 4) % width == x
            &&& (i / 4) / width == y
        }),
{
    let p = y * width + x;
    assert(p >= 0) by (nonlinear_arith)
        requires
            p == y * width + x,
            0 <= x < width,
            0 <= y,
    ;
    assert(p == width * y + x) by (nonlinear_arith)
        requires
            p == y * width + x,
    ;
    vstd::arithmetic::div_mod::lemma_fundamental_div_mod_converse(p, width, y, x);
}

/// The place of a sample lies within the buffer.
pub proof fn lemma_index_bound(width: int, height: int, x: int, y: int, c: int)
    requires
        0 <= x < width,
        0 <= y < height,
        0 <= c < 4,
    ensures
        0 <= 4 * (y * width + x) + c < 4 * width * height,
        4 * (y * width + x) + 4 <= 4 * width * height,
{
    assert(0 <= y * width + x && y * width + x + 1 <= width * height) by (nonlinear_arith)
        requires
            0 <= x < width,
            0 <= y < height,
    ;
    assert(4 * width * height == 4 * (width * height)) by (nonlinear_arith);
}

} // verus!
