//! The picture pipeline: decode, resize to the print width, flatten alpha,
//! brighten, dither to two levels and encode as PNG.
//!
//! `prepare_gray` runs the steps up to the flatten and `finish_bitmap` the
//! rest; a contrast adjustment, which works in floating point, belongs
//! between the two and is left to the caller. `process` runs the whole
//! pipeline without one.

use image::ImageEncoder;
use vstd::prelude::*;
use crate::error::PrintError;
use crate::raster::{flatten, flattened, two_level, GrayAlphaRaster, GrayRaster};

verus! {

#[verifier::external_type_specification]
#[verifier::external_body]
pub struct ExImageError(image::ImageError);

#[verifier::external_type_specification]
#[verifier::external_body]
pub struct ExDynamicImage(image::DynamicImage);

/// The (width, height) of the picture that a picture's bytes decode to;
/// `None` where they do not decode.
pub uninterp spec fn decoded_size(bytes: Seq<u8>) -> Option<(u32, u32)>;

/// The luma bytes of a raster after error diffusion onto black and white.
pub uninterp spec fn bilevel_dithered(width: u32, height: u32, pixels: Seq<u8>) -> Seq<u8>;

/// The PNG bytes of a luma raster; `None` where the encoder fails.
pub uninterp spec fn png_encoded(width: u32, height: u32, pixels: Seq<u8>) -> Option<Seq<u8>>;

/// Relies on image::load_from_memory, which guesses the format from the
/// first bytes and decodes them, and on DynamicImage::width and height.
/// Which format is guessed depends on the bytes alone as long as no
/// format-detection hook is registered in the process; this crate
/// registers none.
#[verifier::external_body]
fn decode_picture(bytes: &[u8]) -> (r: Result<(image::DynamicImage, u32, u32), image::ImageError>)
    ensures
        match r {
            Ok(d) => decoded_size(bytes@) == Some((d.1, d.2)),
            Err(_) => decoded_size(bytes@) is None,
        },
{
    match image::load_from_memory(bytes) {
        Ok(img) => {
            let (w, h) = (img.width(), img.height());
            Ok((img, w, h))
        },
        Err(e) => Err(e),
    }
}

/// Relies on DynamicImage::resize_exact with FilterType::Lanczos3, which
/// returns a picture of exactly the requested dimensions, and on
/// DynamicImage::into_luma_alpha8, which converts it to 8-bit luma + alpha
/// of the same dimensions. The resampled values are not stated: the filter
/// works in floating point with `f32::sin`.
#[verifier::external_body]
fn resize_luma_alpha(img: &image::DynamicImage, new_width: u32, new_height: u32) -> (r: GrayAlphaRaster)
    requires
        new_width > 0,
        new_height > 0,
    ensures
        r.wf(),
        r.width == new_width,
        r.height == new_height,
{
    let buf = img.resize_exact(new_width, new_height, image::imageops::FilterType::Lanczos3).into_luma_alpha8();
    GrayAlphaRaster { width: buf.width(), height: buf.height(), data: buf.into_raw() }
}

/// Relies on image::imageops::colorops::brighten_in_place, which replaces
/// each luma byte `c` by `c + value` clamped to 0..=255. The value is kept
/// within -255..=255 so that the sum does not overflow.
#[verifier::external_body]
fn brighten_luma(src: GrayRaster, value: i32) -> (r: GrayRaster)
    requires
        src.wf(),
        -255 <= value <= 255,
    ensures
        r.wf(),
        r.width == src.width,
        r.height == src.height,
        r.data@ == brightened(src.data@, value as int),
{
    let mut buf = image::GrayImage::from_raw(src.width, src.height, src.data).expect("one byte per pixel");
    image::imageops::colorops::brighten_in_place(&mut buf, value);
    GrayRaster { width: buf.width(), height: buf.height(), data: buf.into_raw() }
}

/// Relies on image::imageops::dither with the BiLevel colour map: Floyd-Steinberg
/// error diffusion that visits each pixel once and sets it to 0 or 255. It
/// indexes one column to the right of the first, so the raster needs two columns.
#[verifier::external_body]
fn dither_bilevel(src: GrayRaster) -> (r: GrayRaster)
    requires
        src.wf(),
        src.width >= 2,
        src.height >= 1,
    ensures
        r.wf(),
        r.width == src.width,
        r.height == src.height,
        r.data@ == bilevel_dithered(src.width, src.height, src.data@),
        two_level(r.data@),
{
    let mut buf = image::GrayImage::from_raw(src.width, src.height, src.data).expect("one byte per pixel");
    image::imageops::dither(&mut buf, &image::imageops::BiLevel);
    GrayRaster { width: buf.width(), height: buf.height(), data: buf.into_raw() }
}

/// Relies on image::codecs::png::PngEncoder::write_image with 8-bit luma,
/// which writes a PNG of the given dimensions into the vector.
#[verifier::external_body]
fn encode_png(src: &GrayRaster) -> (r: Result<Vec<u8>, image::ImageError>)
    requires
        src.wf(),
    ensures
        match r {
            Ok(v) => png_encoded(src.width, src.height, src.data@) == Some(v@),
            Err(_) => png_encoded(src.width, src.height, src.data@) is None,
        },
{
    let mut out: Vec<u8> = Vec::new();
    let enc = image::codecs::png::PngEncoder::new(&mut out);
    match enc.write_image(&src.data, src.width, src.height, image::ExtendedColorType::L8) {
        Ok(()) => Ok(out),
        Err(e) => Err(e),
    }
}

/// What the pipeline is configured with.
#[derive(Clone, Copy, Debug)]
pub struct ImageOptions {
    /// Added to every luma value before dithering.
    pub brightness: i32,
    /// The width in pixels that every picture is scaled to.
    pub max_width: u32,
}

/// The height that keeps the aspect ratio of a `width` x `height` picture
/// scaled to `target` columns: rounded to the nearest integer, at least 1
/// and at most `u32::MAX`.
pub open spec fn scaled_height(width: u32, height: u32, target: u32) -> u32 {
    let q = ((height as int) * (target as int) + (width as int) / 2) / (width as int);
    if q < 1 {
        1
    } else if q > u32::MAX {
        u32::MAX
    } else {
        q as u32
    }
}

/// The bytes decode to a picture with at least one pixel.
pub open spec fn decodable(bytes: Seq<u8>) -> bool {
    decoded_size(bytes) is Some && decoded_size(bytes)->Some_0.0 > 0 && decoded_size(bytes)->Some_0.1 > 0
}

/// `g` is an opaque luma raster that a picture of `size` becomes when scaled
/// to `max_width` columns and flattened: its dimensions are fixed, and its
/// bytes are the flatten of some luma + alpha raster of those dimensions.
pub open spec fn is_prepared(g: GrayRaster, size: (u32, u32), max_width: u32) -> bool {
    &&& g.wf()
    &&& g.width == max_width
    &&& g.height == scaled_height(size.0, size.1, max_width)
    &&& exists|x: Seq<u8>|
        x.len() == 2 * (g.width as int) * (g.height as int) && #[trigger] flattened(x) == g.data@
}

/// What brightening, dithering and encoding give for a luma raster.
pub open spec fn finish_outcome(width: u32, height: u32, gray: Seq<u8>, brightness: i32) -> Result<Seq<u8>, PrintError> {
    if width < 2 || height == 0 {
        Err(PrintError::TooSmall)
    } else {
        match png_encoded(width, height, bilevel_dithered(width, height, brightened(gray, brightness as int))) {
            Some(b) => Ok(b),
            None => Err(PrintError::Encode),
        }
    }
}

/// `r` is what brightening, dithering and encoding give for a luma raster.
pub open spec fn is_finish_result(
    r: Result<Vec<u8>, PrintError>,
    width: u32,
    height: u32,
    gray: Seq<u8>,
    brightness: i32,
) -> bool {
    match r {
        Ok(v) => finish_outcome(width, height, gray, brightness) == Ok::<Seq<u8>, PrintError>(v@),
        Err(e) => finish_outcome(width, height, gray, brightness) == Err::<Seq<u8>, PrintError>(e),
    }
}

/// The height of a picture scaled to `target` columns; see `scaled_height`.
pub fn target_height(width: u32, height: u32, target: u32) -> (r: u32)
    requires
        width > 0,
    ensures
        r == scaled_height(width, height, target),
{
    proof {
        assert((height as int) * (target as int) <= 0xffff_ffffint * 0xffff_ffffint) by (nonlinear_arith)
            requires height <= 0xffff_ffffu32, target <= 0xffff_ffffu32;
    }
    let num: u64 = (height as u64) * (target as u64) + (width as u64) / 2;
    let q: u64 = num / (width as u64);
    if q < 1 {
        1
    } else if q > 0xffff_ffffu64 {
        0xffff_ffffu32
    } else {
        q as u32
    }
}

/// Decodes a picture, scales it to `max_width` columns with its aspect
/// ratio kept, and flattens luma + alpha into opaque luma.
pub fn prepare_gray(bytes: &[u8], max_width: u32) -> (r: Result<GrayRaster, PrintError>)
    requires
        max_width > 0,
    ensures
        !decodable(bytes@) ==> r matches Err(PrintError::Decode),
        decodable(bytes@) ==> r is Ok && is_prepared(r->Ok_0, decoded_size(bytes@)->Some_0, max_width),
{
    let (img, width, height) = match decode_picture(bytes) {
        Ok(d) => d,
        Err(_) => {
            return Err(PrintError::Decode);
        },
    };
    if width == 0 || height == 0 {
        return Err(PrintError::Decode);
    }
    let nh = target_height(width, height, max_width);
    let resized = resize_luma_alpha(&img, max_width, nh);
    let gray = flatten(&resized);
    assert(flattened(resized.data@) == gray.data@);
    Ok(gray)
}

/// Brightens a luma raster and dithers it onto black and white. A raster
/// under two columns or without rows gives `TooSmall`.
pub fn dither_gray(gray: GrayRaster, brightness: i32) -> (r: Result<GrayRaster, PrintError>)
    requires
        gray.wf(),
    ensures
        (gray.width < 2 || gray.height == 0) ==> r matches Err(PrintError::TooSmall),
        !(gray.width < 2 || gray.height == 0) ==> {
            &&& r is Ok
            &&& r->Ok_0.wf()
            &&& r->Ok_0.width == gray.width
            &&& r->Ok_0.height == gray.height
            &&& r->Ok_0.data@ == bilevel_dithered(gray.width, gray.height, brightened(gray.data@, brightness as int))
            &&& two_level(r->Ok_0.data@)
        },
{
    if gray.width < 2 || gray.height == 0 {
        return Err(PrintError::TooSmall);
    }
    let value: i32 = if brightness < -255 {
        -255
    } else if brightness > 255 {
        255
    } else {
        brightness
    };
    let ghost old_data = gray.data@;
    let lit = brighten_luma(gray, value);
    proof {
        brightened_saturates(old_data, brightness as int, value as int);
    }
    Ok(dither_bilevel(lit))
}

/// Serialises a luma raster as PNG.
pub fn encode_bitmap(gray: &GrayRaster) -> (r: Result<Vec<u8>, PrintError>)
    requires
        gray.wf(),
    ensures
        match png_encoded(gray.width, gray.height, gray.data@) {
            Some(b) => r is Ok && r->Ok_0@ == b,
            None => r matches Err(PrintError::Encode),
        },
{
    match encode_png(gray) {
        Ok(v) => Ok(v),
        Err(_) => Err(PrintError::Encode),
    }
}

/// Brightens, dithers and encodes a luma raster; see `finish_outcome`.
pub fn finish_bitmap(gray: GrayRaster, brightness: i32) -> (r: Result<Vec<u8>, PrintError>)
    requires
        gray.wf(),
    ensures
        is_finish_result(r, gray.width, gray.height, gray.data@, brightness),
{
    let (width, height) = (gray.width, gray.height);
    let ghost data = gray.data@;
    let dithered = dither_gray(gray, brightness)?;
    let r = encode_bitmap(&dithered);
    assert(finish_outcome(width, height, data, brightness) == match png_encoded(
        width,
        height,
        dithered.data@,
    ) {
        Some(b) => Ok(b),
        None => Err(PrintError::Encode),
    });
    r
}

/// The whole pipeline: the printable PNG bitmap of a picture's bytes.
/// Undecodable bytes give `Decode`; otherwise the result is that of
/// `finish_bitmap` on the raster that `prepare_gray` describes, so a
/// `max_width` of 1 gives `TooSmall`.
pub fn process(bytes: &[u8], options: ImageOptions) -> (r: Result<Vec<u8>, PrintError>)
    requires
        options.max_width > 0,
    ensures
        !decodable(bytes@) ==> r matches Err(PrintError::Decode),
        decodable(bytes@) ==> exists|g: GrayRaster|
            is_prepared(g, decoded_size(bytes@)->Some_0, options.max_width)
                && #[trigger] is_finish_result(r, g.width, g.height, g.data@, options.brightness),
        decodable(bytes@) && options.max_width == 1 ==> r matches Err(PrintError::TooSmall),
{
    let gray = prepare_gray(bytes, options.max_width)?;
    let ghost g = gray;
    let r = finish_bitmap(gray, options.brightness);
    assert(is_prepared(g, decoded_size(bytes@)->Some_0, options.max_width));
    assert(is_finish_result(r, g.width, g.height, g.data@, options.brightness));
    r
}

/// Every picture is scaled to exactly `max_width` columns, smaller ones
/// included, with at least one row.
pub proof fn prepared_width_is_max_width(g: GrayRaster, size: (u32, u32), max_width: u32)
    requires
        is_prepared(g, size, max_width),
    ensures
        g.width == max_width,
        g.height >= 1,
{
}

/// Brightening by more than a full channel saturates as brightening by a
/// full channel does.
proof fn brightened_saturates(pixels: Seq<u8>, value: int, clamped: int)
    requires
        clamped == (if value < -255 { -255 } else if value > 255 { 255 } else { value }),
    ensures
        brightened(pixels, value) == brightened(pixels, clamped),
{
    assert(brightened(pixels, value) =~= brightened(pixels, clamped));
}

/// Dithering is deterministic: any two results of brightening, dithering
/// and encoding the same raster with the same brightness are the same
/// bitmap, or the same error.
pub proof fn bitmap_is_deterministic(
    width: u32,
    height: u32,
    gray: Seq<u8>,
    brightness: i32,
    r1: Result<Vec<u8>, PrintError>,
    r2: Result<Vec<u8>, PrintError>,
)
    requires
        is_finish_result(r1, width, height, gray, brightness),
        is_finish_result(r2, width, height, gray, brightness),
    ensures
        r1 is Ok <==> r2 is Ok,
        r1 is Ok ==> r1->Ok_0@ == r2->Ok_0@,
        r1 is Err ==> r1->Err_0 == r2->Err_0,
{
}

/// `v` clamped to the range of a byte.
pub open spec fn clamp_channel(v: int) -> u8 {
    if v < 0 {
        0
    } else if v > 255 {
        255
    } else {
        v as u8
    }
}

/// Each luma byte shifted by `value` and clamped.
pub open spec fn brightened(pixels: Seq<u8>, value: int) -> Seq<u8> {
    Seq::new(pixels.len(), |i: int| clamp_channel(pixels[i] + value))
}

} // verus!
