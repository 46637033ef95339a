//! The picture codec. Decoding, cropping, resampling and JPEG encoding are the
//! work of the `image` crate; this module declares its types and states, for
//! each call, what the rest of the library relies on. Nothing in this module is
//! proved: every contract here is taken from the `image` crate's source.
//!
//! Two of the calls return what is no function of their arguments. The JPEG
//! decoder picks its arithmetic by the processor it runs on, and the
//! resampling kernels call floating-point functions whose last digits differ
//! between platforms. Each of the two gets a relation in place of a function:
//! it holds of the arguments and of every result that the call may return for
//! them, so that a contract can say what was handed to the call.

use image::imageops::FilterType;
use image::DynamicImage;
use image::GenericImageView;
use image::ImageError;
use image::ImageOutputFormat;
use std::io::Cursor;
use vstd::prelude::*;

verus! {

/// `image::DynamicImage`, a decoded pixel grid of any supported pixel layout.
/// Its contents are not visible to the verifier.
#[verifier::external_type_specification]
#[verifier::external_body]
pub struct ExDynamicImage(image::DynamicImage);

/// `image::ImageError`, the error of every fallible call of the `image` crate.
#[verifier::external_type_specification]
#[verifier::external_body]
pub struct ExImageError(image::ImageError);

/// The resampling filters of `image::imageops::FilterType`, one variant each.
#[derive(Clone, Copy, Debug, PartialEq, Eq, Structural)]
pub enum Resampling {
    Nearest,
    Triangle,
    CatmullRom,
    Gaussian,
    Lanczos3,
}

/// Whether `out` is what `image::load_from_memory` may return for a buffer
/// holding `bytes`: a picture, or the error of the decoder.
pub uninterp spec fn decoding(bytes: Seq<u8>, out: Result<DynamicImage, ImageError>) -> bool;

/// Whether `out` is a picture that `DynamicImage::resize` may return for a
/// picture, a bounding box and a filter.
pub uninterp spec fn resized(picture: DynamicImage, width: u32, height: u32, filter: Resampling, out: DynamicImage) -> bool;

/// Width and height of a picture, as `GenericImageView::dimensions` reports
/// them.
pub uninterp spec fn dimensions_of(picture: DynamicImage) -> (u32, u32);

/// What `DynamicImage::crop_imm` returns for a picture and a rectangle.
pub uninterp spec fn cropped(picture: DynamicImage, x: u32, y: u32, width: u32, height: u32) -> DynamicImage;

/// What `DynamicImage::write_to` writes for a picture as JPEG of the given
/// quality, or the error it returns.
pub uninterp spec fn jpeg_encoded(picture: DynamicImage, quality: u8) -> Result<Seq<u8>, ImageError>;

/// The extent that `crop_imm` keeps of a requested one: the offset is first
/// moved back to the picture's edge, then the extent is cut to what is left
/// beyond it.
pub open spec fn clipped_extent(offset: u32, extent: u32, available: u32) -> int {
    let start: int = if offset <= available { offset as int } else { available as int };
    if extent <= available - start { extent as int } else { available - start }
}

/// A side of the box that `DynamicImage::resize` computes from a requested
/// one: it is never empty.
pub open spec fn at_least_one(side: u32) -> int {
    if side == 0 {
        1
    } else {
        side as int
    }
}

/// Whether the buffers that `DynamicImage::resize` allocates for a source
/// `width` pixels wide and a bounding box of `nwidth` by `nheight` pixels fit
/// in memory. The first is as wide as the source and as high as the computed
/// box, the second as large as the computed box, whose sides are at most the
/// requested ones and at least one; each holds up to four 32-bit samples per
/// pixel.
pub open spec fn resize_fits(width: u32, nwidth: u32, nheight: u32) -> bool {
    &&& 16 * width * at_least_one(nheight) <= isize::MAX
    &&& 16 * at_least_one(nwidth) * at_least_one(nheight) <= isize::MAX
}

/// Calls `image::load_from_memory`, which guesses the format from the first
/// bytes and decodes the whole picture. The contract claims only that the
/// result is one that the call may return for these bytes: which pixels come
/// out of a JPEG depends on the processor.
#[verifier::external_body]
pub(crate) fn decode(bytes: &[u8]) -> (out: Result<DynamicImage, ImageError>)
    ensures
        decoding(bytes@, out),
{
    image::load_from_memory(bytes)
}

/// Calls `GenericImageView::dimensions` on a `DynamicImage`. The contract
/// claims only that the result is a function of the picture.
#[verifier::external_body]
pub(crate) fn dimensions(picture: &DynamicImage) -> (out: (u32, u32))
    ensures
        out == dimensions_of(*picture),
{
    picture.dimensions()
}

/// Calls `DynamicImage::crop_imm`. The contract claims that the result is a
/// function of the arguments and that its dimensions are the requested extent
/// clipped to the picture, as `crop_dimms` in the crate's source computes it.
#[verifier::external_body]
pub(crate) fn crop(picture: &DynamicImage, x: u32, y: u32, width: u32, height: u32) -> (out: DynamicImage)
    ensures
        out == cropped(*picture, x, y, width, height),
        dimensions_of(out).0 == clipped_extent(x, width, dimensions_of(*picture).0),
        dimensions_of(out).1 == clipped_extent(y, height, dimensions_of(*picture).1),
{
    picture.crop_imm(x, y, width, height)
}

/// Calls `DynamicImage::resize`, which keeps the aspect ratio and scales the
/// picture to the largest size inside the bounding box. The contract claims
/// that the result is one that the call may return for these arguments, and
/// that a square picture in a square box that is not empty fills the box. It
/// claims nothing of the pixels, and it is stated for pictures that hold
/// pixels and for sizes whose buffers can be allocated.
#[verifier::external_body]
pub(crate) fn resize(picture: &DynamicImage, width: u32, height: u32, filter: Resampling) -> (out: DynamicImage)
    requires
        dimensions_of(*picture).0 > 0,
        dimensions_of(*picture).1 > 0,
        resize_fits(dimensions_of(*picture).0, width, height),
    ensures
        resized(*picture, width, height, filter, out),
        dimensions_of(*picture).0 == dimensions_of(*picture).1 && width == height && width > 0
            ==> dimensions_of(out) == (width, height),
{
    let filter = match filter {
        Resampling::Nearest => FilterType::Nearest,
        Resampling::Triangle => FilterType::Triangle,
        Resampling::CatmullRom => FilterType::CatmullRom,
        Resampling::Gaussian => FilterType::Gaussian,
        Resampling::Lanczos3 => FilterType::Lanczos3,
    };
    picture.resize(width, height, filter)
}

/// Calls `DynamicImage::write_to` with `ImageOutputFormat::Jpeg(quality)` on a
/// buffer in memory. The contract claims only that the bytes written, or the
/// error, are a function of the picture and the quality.
#[verifier::external_body]
pub(crate) fn encode_jpeg(picture: &DynamicImage, quality: u8) -> (out: Result<Vec<u8>, ImageError>)
    ensures
        match out {
            Ok(bytes) => jpeg_encoded(*picture, quality) == Ok::<Seq<u8>, ImageError>(bytes@),
            Err(error) => jpeg_encoded(*picture, quality) == Err::<Seq<u8>, ImageError>(error),
        },
{
    let mut buffer: Vec<u8> = Vec::new();
    picture.write_to(&mut Cursor::new(&mut buffer), ImageOutputFormat::Jpeg(quality))?;
    Ok(buffer)
}

} // verus!
