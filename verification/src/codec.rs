//! Decoding, resampling and encoding, done by the `image` crate.
//!
//! The functions marked `external_body` are the only places where the
//! library calls into `image`.  Their contracts are taken on trust from that
//! crate's source.  What a codec returns for given bytes or samples takes
//! pages to state, so the decoder, the resampler and the two encoders have
//! their results named rather than described.

use crate::error::ErrorKind;
use crate::raster::{Raster, RasterView};
use image::ImageEncoder;
use vstd::prelude::*;

verus! {

/// The error type of the `image` crate.  Nothing is read from it: every
/// failure of a codec becomes one [`ErrorKind`].
#[verifier::external_type_specification]
#[verifier::external_body]
pub struct ExImageError(image::ImageError);

/// The two file formats that are read and written.
#[derive(Clone, Copy, Debug, PartialEq, Eq, Structural)]
pub enum Format {
    Png,
    Jpeg,
}

/// The longest side, in pixels, that is handed to the resampler: the
/// largest number below 2^23.
///
/// The resampler locates the centre of each output pixel in the source in
/// single precision, as `(x + 0.5) * (width / new_width)`, and weighs the
/// source pixels around it with the triangle filter.  Single precision has 24
/// binary digits, so up to this side every pixel index and every `x + 0.5` is
/// exact, and the centre is off by less than three quarters of a pixel where
/// it counts, at the far edge.  Some source pixel then lies within half a
/// pixel of the centre as computed and has a weight of a half or more.  With
/// a longer side the centre of the last output pixels can come to lie a whole
/// pixel beyond the source; then no weight is positive, the weights are
/// divided by a sum of zero, and the resampler panics on the sample that
/// results.
pub const MAX_SIDE: u32 = 0x7f_ffff;

/// What `image` decodes from a file, as PNG if `png` holds and as JPEG if
/// not, converted to eight-bit RGBA: the width, the height and the samples,
/// or `None` where it refuses the file.  The decoders work with fixed limits;
/// where they choose vector code by the processor, it is written to give the
/// results of the scalar code.
pub uninterp spec fn decoded(bytes: Seq<u8>, png: bool) -> Option<(nat, nat, Seq<u8>)>;

/// The samples of an RGBA image of `width` by `height` pixels resampled to
/// `new_width` by `new_height` pixels with the triangle filter, as
/// `image::imageops::resize` computes them.
pub uninterp spec fn resampled(
    data: Seq<u8>,
    width: nat,
    height: nat,
    new_width: nat,
    new_height: nat,
) -> Seq<u8>;

/// The PNG file that `image`'s encoder writes for an RGBA image of `width` by
/// `height` pixels with its default settings, or `None` where it refuses.
pub uninterp spec fn png_stream(data: Seq<u8>, width: nat, height: nat) -> Option<Seq<u8>>;

/// The JPEG file that `image`'s encoder writes for an RGB image of `width` by
/// `height` pixels at the given quality, or `None` where it refuses.
pub uninterp spec fn jpeg_stream(rgb: Seq<u8>, width: nat, height: nat, quality: u8) -> Option<
    Seq<u8>,
>;

/// Calls `image::load_from_memory_with_format` and converts what it decoded
/// to eight-bit RGBA with `DynamicImage::into_rgba8`.  Returns the width, the
/// height and the samples.  What they are, or that the file is refused, is
/// named; nothing more is claimed of them, and the caller checks that the
/// samples match the size.
#[verifier::external_body]
fn decode_rgba(bytes: &[u8], format: Format) -> (r: Result<(u32, u32, Vec<u8>), image::ImageError>)
    ensures
        match r {
            Ok(got) => decoded(bytes@, format == Format::Png) == Some(
                (got.0 as nat, got.1 as nat, got.2@),
            ),
            Err(_) => decoded(bytes@, format == Format::Png) is None,
        },
{
    let format = match format {
        Format::Png => image::ImageFormat::Png,
        Format::Jpeg => image::ImageFormat::Jpeg,
    };
    let decoded = image::load_from_memory_with_format(bytes, format)?.into_rgba8();
    Ok((decoded.width(), decoded.height(), decoded.into_raw()))
}

/// Calls `image::imageops::resize` with `FilterType::Triangle` on the samples
/// seen as an RGBA image.  The result is named, not described; the source
/// shows that it is a fresh buffer of exactly the size asked for.  The
/// conditions keep out the inputs on which the resampler's two buffers (one
/// of them holds four `f32` for each pixel of `width` by `new_height`) cannot
/// be allocated, and the sides beyond [`MAX_SIDE`], with which it can panic.
#[verifier::external_body]
fn resize_rgba(data: &Vec<u8>, width: u32, height: u32, new_width: u32, new_height: u32) -> (out:
    Vec<u8>)
    requires
        data@.len() == 4 * width * height,
        width <= MAX_SIDE,
        height <= MAX_SIDE,
        new_width <= MAX_SIDE,
        new_height <= MAX_SIDE,
        16 * width * new_height <= isize::MAX,
        4 * new_width * new_height <= isize::MAX,
    ensures
        out@ == resampled(
            data@,
            width as nat,
            height as nat,
            new_width as nat,
            new_height as nat,
        ),
        out@.len() == 4 * new_width * new_height,
{
    let view = image::ImageBuffer::<image::Rgba<u8>, &[u8]>::from_raw(width, height, data).unwrap();
    image::imageops::resize(
        &view,
        new_width,
        new_height,
        image::imageops::FilterType::Triangle,
    ).into_raw()
}

/// Calls `PngEncoder::new(..).write_image(..)` of `image` on RGBA samples,
/// writing into memory.  What it writes, or that it refuses, is named.  The
/// encoder panics where the samples do not match the size.
#[verifier::external_body]
fn encode_png(data: &Vec<u8>, width: u32, height: u32) -> (r: Result<Vec<u8>, image::ImageError>)
    requires
        data@.len() == 4 * width * height,
    ensures
        match r {
            Ok(file) => png_stream(data@, width as nat, height as nat) == Some(file@),
            Err(_) => png_stream(data@, width as nat, height as nat) is None,
        },
{
    let mut file = Vec::new();
    image::codecs::png::PngEncoder::new(&mut file).write_image(
        data,
        width,
        height,
        image::ExtendedColorType::Rgba8,
    )?;
    Ok(file)
}

/// Calls `JpegEncoder::new_with_quality(..).encode(..)` of `image` on RGB
/// samples, writing into memory.  What it writes, or that it refuses, is
/// named.  The encoder panics where the samples do not match the size.
#[verifier::external_body]
fn encode_jpeg(rgb: &Vec<u8>, width: u32, height: u32, quality: u8) -> (r: Result<
    Vec<u8>,
    image::ImageError,
>)
    requires
        rgb@.len() == 3 * width * height,
    ensures
        match r {
            Ok(file) => jpeg_stream(rgb@, width as nat, height as nat, quality) == Some(file@),
            Err(_) => jpeg_stream(rgb@, width as nat, height as nat, quality) is None,
        },
{
    let mut file = Vec::new();
    image::codecs::jpeg::JpegEncoder::new_with_quality(&mut file, quality).encode(
        rgb,
        width,
        height,
        image::ExtendedColorType::Rgb8,
    )?;
    Ok(file)
}

/// The image in a PNG or JPEG file: what the decoder gives, if its sides are
/// within `u32` and it gives exactly four samples for each pixel.  A file
/// that the decoder refuses, and one for which it gives anything else, is
/// undecodable.
pub open spec fn decode_spec(bytes: Seq<u8>, format: Format) -> Result<RasterView, ErrorKind> {
    match decoded(bytes, format == Format::Png) {
        Some((width, height, data)) => if width <= u32::MAX && height <= u32::MAX && data.len()
            == 4 * width * height {
            Ok(RasterView { width, height, data })
        } else {
            Err(ErrorKind::DecodeError)
        },
        None => Err(ErrorKind::DecodeError),
    }
}

/// Decodes a PNG or JPEG file held in memory to RGBA.
pub fn decode(bytes: &[u8], format: Format) -> (r: Result<Raster, ErrorKind>)
    ensures
        match r {
            Ok(image) => decode_spec(bytes@, format) == Ok::<RasterView, ErrorKind>(image@),
            Err(e) => decode_spec(bytes@, format) == Err::<RasterView, ErrorKind>(e),
        },
        r matches Ok(image) ==> image@.wf(),
{
    match decode_rgba(bytes, format) {
        Ok((width, height, data)) => accept_decoded(width, height, data),
        Err(_) => Err(ErrorKind::DecodeError),
    }
}

/// Takes what the decoder returned as an image, if the samples match the
/// size; refuses it as undecodable otherwise.
pub fn accept_decoded(width: u32, height: u32, data: Vec<u8>) -> (r: Result<Raster, ErrorKind>)
    ensures
        r is Ok <==> data@.len() == 4 * width * height,
        r matches Ok(image) ==> image@ == (RasterView {
            width: width as nat,
            height: height as nat,
            data: data@,
        }),
        r matches Err(e) ==> e == ErrorKind::DecodeError,
{
    match Raster::from_raw(width, height, data) {
        Some(image) => Ok(image),
        None => Err(ErrorKind::DecodeError),
    }
}

/// The resampler can take an image of `width` by `height` pixels to
/// `new_width` by `new_height` pixels on this machine: no side is beyond
/// [`MAX_SIDE`], and its buffers can be allocated.
pub open spec fn can_resize(width: nat, height: nat, new_width: nat, new_height: nat) -> bool {
    &&& width <= MAX_SIDE
    &&& height <= MAX_SIDE
    &&& new_width <= MAX_SIDE
    &&& new_height <= MAX_SIDE
    &&& 16 * width * new_height <= isize::MAX
    &&& 4 * new_width * new_height <= isize::MAX
}

/// `image` resampled to `new_width` by `new_height` pixels.
pub open spec fn resized(image: RasterView, new_width: nat, new_height: nat) -> RasterView {
    RasterView {
        width: new_width,
        height: new_height,
        data: resampled(image.data, image.width, image.height, new_width, new_height),
    }
}

/// Tells whether the resampler can take an image of `width` by `height`
/// pixels to `new_width` by `new_height` pixels on this machine.
pub fn check_resize(width: u32, height: u32, new_width: u32, new_height: u32) -> (ok: bool)
    ensures
        ok == can_resize(width as nat, height as nat, new_width as nat, new_height as nat),
{
    if width > MAX_SIDE || height > MAX_SIDE || new_width > MAX_SIDE || new_height > MAX_SIDE {
        return false;
    }
    assert(16 * width * new_height == 16 * (width * new_height) && 4 * new_width * new_height == 4
        * (new_width * new_height) && width * new_height <= 0x4000_0000_0000 && new_width
        * new_height <= 0x4000_0000_0000) by (nonlinear_arith)
        requires
            width <= 0x7f_ffff,
            new_width <= 0x7f_ffff,
            new_height <= 0x7f_ffff,
    ;
    let limit: u64 = isize::MAX as u64;
    16 * (width as u64 * new_height as u64) <= limit && 4 * (new_width as u64 * new_height as u64)
        <= limit
}

/// Resamples `image` to `new_width` by `new_height` pixels.  The source is
/// not changed.
pub fn resize(image: &Raster, new_width: u32, new_height: u32) -> (r: Raster)
    requires
        can_resize(image@.width, image@.height, new_width as nat, new_height as nat),
    ensures
        r@ == resized(image@, new_width as nat, new_height as nat),
        r@.wf(),
{
    let data = resize_rgba(image.as_raw(), image.width(), image.height(), new_width, new_height);
    Raster::assemble(new_width, new_height, data)
}

/// The samples of an RGBA image without every fourth one: red, green and blue
/// of each pixel, alpha dropped.
pub open spec fn without_alpha(data: Seq<u8>) -> Seq<u8> {
    Seq::new(3 * (data.len() / 4), |i: int| data[4 * (i / 3) + i % 3])
}

/// Drops the alpha sample of every pixel.
pub fn drop_alpha(image: &Raster) -> (rgb: Vec<u8>)
    ensures
        rgb@ == without_alpha(image@.data),
        rgb@.len() == 3 * image@.width * image@.height,
{
    let data: &Vec<u8> = image.as_raw();
    let n: usize = data.len();
    let mut rgb: Vec<u8> = Vec::new();
    let mut i: usize = 0;
    assert(4 * image@.width * image@.height == 4 * (image@.width * image@.height)
        && 3 * image@.width * image@.height == 3 * (image@.width * image@.height))
        by (nonlinear_arith);
    while i < n
        invariant
            n == data@.len(),
            n % 4 == 0,
            i % 4 == 0,
            i <= n,
            rgb@.len() == 3 * (i / 4),
            forall|k: int| 0 <= k < rgb@.len() ==> rgb@[k] == data@[4 * (k / 3) + k % 3],
        decreases n - i,
    {
        rgb.push(data[i]);
        rgb.push(data[i + 1]);
        rgb.push(data[i + 2]);
        i = i + 4;
    }
    assert(rgb@ =~= without_alpha(data@));
    rgb
}

/// The file for a canvas in the given format: PNG keeps every sample and
/// ignores the quality; JPEG has no alpha, which is dropped, and is written at
/// the given quality.  A refusal of the encoder is an `EncodeError`.
pub open spec fn encode_spec(canvas: RasterView, format: Format, quality: u8) -> Result<
    Seq<u8>,
    ErrorKind,
> {
    let file = match format {
        Format::Png => png_stream(canvas.data, canvas.width, canvas.height),
        Format::Jpeg => jpeg_stream(
            without_alpha(canvas.data),
            canvas.width,
            canvas.height,
            quality,
        ),
    };
    match file {
        Some(bytes) => Ok(bytes),
        None => Err(ErrorKind::EncodeError),
    }
}

/// The file or the error that came out is the one that was to come out.
pub open spec fn file_matches(r: Result<Vec<u8>, ErrorKind>, expected: Result<Seq<u8>, ErrorKind>) -> bool {
    match r {
        Ok(file) => expected == Ok::<Seq<u8>, ErrorKind>(file@),
        Err(e) => expected == Err::<Seq<u8>, ErrorKind>(e),
    }
}

/// Encodes a canvas as a PNG or JPEG file in memory.
pub fn encode(canvas: &Raster, format: Format, quality: u8) -> (r: Result<Vec<u8>, ErrorKind>)
    ensures
        file_matches(r, encode_spec(canvas@, format, quality)),
{
    let encoded = match format {
        Format::Png => encode_png(canvas.as_raw(), canvas.width(), canvas.height()),
        Format::Jpeg => {
            let rgb = drop_alpha(canvas);
            encode_jpeg(&rgb, canvas.width(), canvas.height(), quality)
        },
    };
    match encoded {
        Ok(file) => Ok(file),
        Err(_) => Err(ErrorKind::EncodeError),
    }
}

/// The quality has no part in a PNG file.
pub proof fn lemma_png_ignores_quality(canvas: RasterView, first: u8, second: u8)
    ensures
        encode_spec(canvas, Format::Png, first) == encode_spec(canvas, Format::Png, second),
{
}

/// Alpha has no part in a JPEG file: two canvases of one size that differ
/// in alpha samples only give the same file.
pub proof fn lemma_jpeg_ignores_alpha(first: RasterView, second: RasterView, quality: u8)
    requires
        first.width == second.width,
        first.height == second.height,
        first.data.len() == second.data.len(),
        forall|i: int| 0 <= i < first.data.len() && i % 4 != 3 ==> first.data[i] == second.data[i],
    ensures
        encode_spec(first, Format::Jpeg, quality) == encode_spec(second, Format::Jpeg, quality),
{
    assert(without_alpha(first.data) =~= without_alpha(second.data));
}

} // verus!
