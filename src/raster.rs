//! Plain pixel rasters and the flattening of luma + alpha into opaque luma.

use vstd::prelude::*;

verus! {

/// The largest value of an 8-bit channel.
pub const CHANNEL_MAX: u8 = 255;

/// A raster of interleaved (luma, alpha) pairs, row by row.
#[derive(Clone, Debug, PartialEq, Eq)]
pub struct GrayAlphaRaster {
    pub width: u32,
    pub height: u32,
    pub data: Vec<u8>,
}

/// A raster of one luma byte per pixel, row by row.
#[derive(Clone, Debug, PartialEq, Eq)]
pub struct GrayRaster {
    pub width: u32,
    pub height: u32,
    pub data: Vec<u8>,
}

impl GrayAlphaRaster {
    /// Two bytes for each pixel.
    pub open spec fn wf(&self) -> bool {
        self.data@.len() == 2 * (self.width as int) * (self.height as int)
    }
}

impl GrayRaster {
    /// One byte for each pixel.
    pub open spec fn wf(&self) -> bool {
        self.data@.len() == (self.width as int) * (self.height as int)
    }
}

/// Combines luma `l` and alpha `a` into one opaque luma value:
/// `MAX - (MAX - l) * (a / MAX)`, with the product taken before the
/// division, which rounds down. An opaque pixel keeps its luma, a fully
/// transparent one becomes white, and the rest lie in between.
pub open spec fn flatten_pixel(l: u8, a: u8) -> u8 {
    (255 - ((255 - l) as int * a as int) / 255) as u8
}

/// The luma byte of pixel `i` in a (luma, alpha) sequence.
pub open spec fn luma_at(la: Seq<u8>, i: int) -> u8 {
    la[2 * i]
}

/// The alpha byte of pixel `i` in a (luma, alpha) sequence.
pub open spec fn alpha_at(la: Seq<u8>, i: int) -> u8 {
    la[2 * i + 1]
}

/// The luma bytes of a (luma, alpha) sequence, flattened pixel by pixel.
pub open spec fn flattened(la: Seq<u8>) -> Seq<u8> {
    Seq::new(la.len() / 2, |i: int| flatten_pixel(luma_at(la, i), alpha_at(la, i)))
}

/// True when every byte is black (0) or white (255).
pub open spec fn two_level(pixels: Seq<u8>) -> bool {
    forall|i: int| 0 <= i < pixels.len() ==> pixels[i] == 0 || pixels[i] == 255
}

/// The flatten formula for one pixel.
pub fn flatten_luma_alpha(l: u8, a: u8) -> (r: u8)
    ensures
        r == flatten_pixel(l, a),
{
    let ink: u32 = (CHANNEL_MAX - l) as u32;
    proof {
        assert(ink * (a as u32) <= 255 * 255) by (nonlinear_arith)
            requires ink <= 255, a <= 255;
        assert((ink * (a as u32)) / 255 <= 255) by (nonlinear_arith)
            requires ink * (a as u32) <= 255 * 255;
    }
    let covered: u32 = ink * (a as u32) / 255;
    (255 - covered) as u8
}

/// Flattens every pixel of `src` into opaque luma; the dimensions are kept.
pub fn flatten(src: &GrayAlphaRaster) -> (r: GrayRaster)
    requires
        src.wf(),
    ensures
        r.wf(),
        r.width == src.width,
        r.height == src.height,
        r.data@ == flattened(src.data@),
{
    let len: usize = src.data.len();
    let n: usize = len / 2;
    assert(2 * n <= src.data@.len());
    let mut out: Vec<u8> = Vec::with_capacity(n);
    let mut i: usize = 0;
    while i < n
        invariant
            n == src.data@.len() / 2,
            2 * n <= src.data@.len(),
            len == src.data@.len(),
            i <= n,
            out@.len() == i,
            forall|k: int| 0 <= k < i ==> out@[k] == flatten_pixel(luma_at(src.data@, k), alpha_at(src.data@, k)),
        decreases n - i,
    {
        let j: usize = 2 * i;
        let p = flatten_luma_alpha(src.data[j], src.data[j + 1]);
        out.push(p);
        i = i + 1;
    }
    assert(out@ =~= flattened(src.data@));
    proof {
        assert(src.data@.len() / 2 == (src.width as int) * (src.height as int)) by (nonlinear_arith)
            requires src.data@.len() == 2 * (src.width as int) * (src.height as int);
    }
    GrayRaster { width: src.width, height: src.height, data: out }
}

/// Tells whether every byte of `pixels` is 0 or 255.
pub fn is_two_level(pixels: &Vec<u8>) -> (r: bool)
    ensures
        r == two_level(pixels@),
{
    let mut i: usize = 0;
    while i < pixels.len()
        invariant
            i <= pixels@.len(),
            forall|k: int| 0 <= k < i ==> pixels@[k] == 0 || pixels@[k] == 255,
        decreases pixels@.len() - i,
    {
        if pixels[i] != 0 && pixels[i] != 255 {
            return false;
        }
        i = i + 1;
    }
    true
}

/// A fully opaque raster keeps its luma: where every alpha byte is 255 the
/// flattened pixels are the luma bytes unchanged.
pub proof fn flatten_keeps_opaque_luma(la: Seq<u8>)
    requires
        la.len() % 2 == 0,
        forall|i: int| 0 <= i < la.len() / 2 ==> #[trigger] alpha_at(la, i) == 255,
    ensures
        flattened(la).len() == la.len() / 2,
        forall|i: int| 0 <= i < la.len() / 2 ==> flattened(la)[i] == luma_at(la, i),
{
    assert forall|i: int| 0 <= i < la.len() / 2 implies flattened(la)[i] == luma_at(la, i) by {
        let ink = (255 - luma_at(la, i)) as int;
        assert((ink * 255) / 255 == ink) by (nonlinear_arith);
    }
}

/// A fully transparent pixel becomes white, whatever its luma.
pub proof fn flatten_whitens_transparent(la: Seq<u8>)
    requires
        la.len() % 2 == 0,
    ensures
        forall|i: int| 0 <= i < la.len() / 2 && #[trigger] alpha_at(la, i) == 0 ==> flattened(la)[i] == 255,
{
    assert forall|i: int| 0 <= i < la.len() / 2 && #[trigger] alpha_at(la, i) == 0 implies flattened(la)[i] == 255 by {
        assert(((255 - luma_at(la, i)) as int * 0) / 255 == 0);
    }
}

} // verus!
