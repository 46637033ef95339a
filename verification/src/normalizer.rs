//! Turns the bytes of a picture into a square JPEG thumbnail.
//!
//! The work is a chain of four steps, and each step after the first is a
//! function of its own that takes what the step before it returned: decoding,
//! the square crop, resampling, and encoding. The pixels that decoding and
//! resampling return depend on the machine, so the contracts of the steps
//! behind them speak of every picture that may come back.

use crate::codec::{
    crop, cropped, decode, decoding, dimensions, dimensions_of, encode_jpeg, jpeg_encoded,
    resize, resized, Resampling,
};
use crate::sizing::{
    crop_side_of, effective_side, effective_side_of, side_in_range, square_region, DEFAULT_SIDE,
    MAX_SIDE, MIN_SIDE,
};
use image::DynamicImage;
use image::ImageError;
use vstd::prelude::*;

verus! {

/// JPEG quality of every thumbnail: the highest the encoder offers.
pub const JPEG_QUALITY: u8 = 100;

/// A thumbnail as it is sent: the JPEG bytes of a square picture, and the
/// length of its side in pixels.
#[derive(Clone, Debug, PartialEq, Eq)]
pub struct NormalizedImage {
    pub jpeg: Vec<u8>,
    pub side: u32,
}

/// `NormalizedImage` with its bytes as a sequence.
pub struct NormalizedImageView {
    pub jpeg: Seq<u8>,
    pub side: u32,
}

impl View for NormalizedImage {
    type V = NormalizedImageView;

    open spec fn view(&self) -> NormalizedImageView {
        NormalizedImageView { jpeg: self.jpeg@, side: self.side }
    }
}

impl NormalizedImage {
    /// Whether the side lies in the range that is served. It does for every
    /// thumbnail that `normalize` makes.
    pub open spec fn wf(&self) -> bool {
        MIN_SIDE <= self.side <= MAX_SIDE
    }
}

/// Why a picture could not be turned into a thumbnail.
#[derive(Debug)]
pub enum NormalizeError {
    /// The bytes are not a picture in a supported format.
    Decode(ImageError),
    /// The picture decoded, but holds no pixels or is too wide or too high to
    /// be resampled in memory.
    Dimensions { width: u32, height: u32 },
    /// The thumbnail could not be written as JPEG.
    Encode(ImageError),
}

/// Whether a picture of the given size can be cropped and resampled to any
/// side length in `MIN_SIDE..=MAX_SIDE`.
pub open spec fn can_resample(width: u32, height: u32) -> bool {
    &&& width > 0
    &&& height > 0
    &&& 16 * crop_side_of(width, height) * MAX_SIDE <= isize::MAX
}

/// Whether a picture is `side` pixels wide and `side` pixels high.
pub open spec fn is_square_of_side(picture: DynamicImage, side: u32) -> bool {
    dimensions_of(picture) == (side, side)
}

/// The largest square at the top-left corner of a picture.
pub open spec fn square_crop_of(picture: DynamicImage) -> DynamicImage {
    let (width, height) = dimensions_of(picture);
    let side = crop_side_of(width, height);
    cropped(picture, 0, 0, side, side)
}

/// The result of `normalize` and of its steps, with the bytes of a thumbnail
/// as a sequence.
pub open spec fn result_view(result: Result<NormalizedImage, NormalizeError>) -> Result<
    NormalizedImageView,
    NormalizeError,
> {
    match result {
        Ok(image) => Ok(image@),
        Err(error) => Err(error),
    }
}

/// What encoding makes of a resampled picture: its JPEG bytes with the width
/// of the picture as the side, or the encoder's error.
pub open spec fn encoding_of(small: DynamicImage) -> Result<NormalizedImageView, NormalizeError> {
    match jpeg_encoded(small, JPEG_QUALITY) {
        Ok(jpeg) => Ok(NormalizedImageView { jpeg, side: dimensions_of(small).0 }),
        Err(error) => Err(NormalizeError::Encode(error)),
    }
}

/// Filter used to resample the cropped square.
pub open spec fn thumbnail_filter() -> Resampling {
    Resampling::Lanczos3
}

/// Whether `small` is a picture that resampling may make of a square for a
/// request of `requested` pixels: the square was resampled with the Lanczos
/// filter into a box of the effective side length, and fills that box.
pub open spec fn is_resampled(square: DynamicImage, requested: u32, small: DynamicImage) -> bool {
    let side = effective_side_of(requested);
    &&& resized(square, side, side, thumbnail_filter(), small)
    &&& is_square_of_side(small, side)
}

/// Whether `small` is a thumbnail of a picture for a request of `requested`
/// pixels: what resampling may make of the largest square at the top-left
/// corner of the picture.
pub open spec fn is_thumbnail_of(picture: DynamicImage, requested: u32, small: DynamicImage) -> bool {
    is_resampled(square_crop_of(picture), requested, small)
}

/// Whether `result` is the encoding of a thumbnail of `picture`.
pub open spec fn encodes_thumbnail_of(
    picture: DynamicImage,
    requested: u32,
    result: Result<NormalizedImageView, NormalizeError>,
) -> bool {
    exists|small: DynamicImage| #[trigger]
        is_thumbnail_of(picture, requested, small) && result == encoding_of(small)
}

/// Whether `result` is what a decoded picture, or the failure to decode one,
/// may end in for a request of `requested` pixels.
pub open spec fn ends_decoded(
    decoded: Result<DynamicImage, ImageError>,
    requested: u32,
    result: Result<NormalizedImageView, NormalizeError>,
) -> bool {
    match decoded {
        Err(error) => result == Err::<NormalizedImageView, NormalizeError>(
            NormalizeError::Decode(error),
        ),
        Ok(picture) => {
            let (width, height) = dimensions_of(picture);
            if !can_resample(width, height) {
                result == Err::<NormalizedImageView, NormalizeError>(
                    NormalizeError::Dimensions { width, height },
                )
            } else {
                encodes_thumbnail_of(picture, requested, result)
            }
        },
    }
}

/// Whether `result` is what `bytes` may end in for a request of `requested`
/// pixels: what follows from something that the decoder may return for them.
pub open spec fn normalizes_to(
    bytes: Seq<u8>,
    requested: u32,
    result: Result<NormalizedImageView, NormalizeError>,
) -> bool {
    exists|decoded: Result<DynamicImage, ImageError>|
        decoding(bytes, decoded) && #[trigger] ends_decoded(decoded, requested, result)
}

/// The encoding of a thumbnail has the effective side length of its request,
/// and where it fails, the error is the encoder's.
pub proof fn encoded_thumbnail_has_its_side(
    picture: DynamicImage,
    requested: u32,
    result: Result<NormalizedImageView, NormalizeError>,
)
    requires
        encodes_thumbnail_of(picture, requested, result),
    ensures
        result matches Ok(image) ==> image.side == effective_side_of(requested),
        result matches Err(error) ==> error is Encode,
{
    let small = choose|small: DynamicImage| #[trigger]
        is_thumbnail_of(picture, requested, small) && result == encoding_of(small);
    assert(dimensions_of(small).0 == effective_side_of(requested));
}

/// Whatever the decoder returns for the bytes of a picture, a thumbnail that
/// is made of it has the effective side length of the request: the requested
/// one where that is served, the default one otherwise.
pub proof fn normalized_has_its_side(
    bytes: Seq<u8>,
    requested: u32,
    result: Result<NormalizedImageView, NormalizeError>,
)
    requires
        normalizes_to(bytes, requested, result),
    ensures
        result matches Ok(image) ==> {
            &&& image.side == effective_side_of(requested)
            &&& MIN_SIDE <= image.side <= MAX_SIDE
            &&& side_in_range(requested) ==> image.side == requested
            &&& !side_in_range(requested) ==> image.side == DEFAULT_SIDE
        },
{
    let decoded = choose|decoded: Result<DynamicImage, ImageError>|
        decoding(bytes, decoded) && #[trigger] ends_decoded(decoded, requested, result);
    if let Ok(picture) = decoded {
        if can_resample(dimensions_of(picture).0, dimensions_of(picture).1) {
            encoded_thumbnail_has_its_side(picture, requested, result);
        }
    }
}

/// Tests whether a picture of the given size can be cropped and resampled.
pub fn check_dimensions(width: u32, height: u32) -> (ok: bool)
    ensures
        ok == can_resample(width, height),
{
    if width == 0 || height == 0 {
        return false;
    }
    let side: u32 = if width <= height { width } else { height };
    let per_column: u64 = 16 * (MAX_SIDE as u64);
    assert(per_column == 8192);
    let needed: u64 = (side as u64) * per_column;
    assert(needed == 16 * side * MAX_SIDE) by (nonlinear_arith)
        requires
            needed == side * per_column,
            per_column == 16 * MAX_SIDE,
    ;
    needed <= isize::MAX as u64
}

/// Reads the width and the height of a picture.
pub fn picture_size(picture: &DynamicImage) -> (size: (u32, u32))
    ensures
        size == dimensions_of(*picture),
{
    dimensions(picture)
}

/// Cuts the largest square out of a picture, with the top-left corner of the
/// picture as its own: of a wide picture the left part is kept, of a high one
/// the upper part.
pub fn square_crop(picture: &DynamicImage) -> (square: DynamicImage)
    ensures
        square == square_crop_of(*picture),
        is_square_of_side(
            square,
            crop_side_of(dimensions_of(*picture).0, dimensions_of(*picture).1),
        ),
{
    let (width, height) = picture_size(picture);
    let region = square_region(width, height);
    crop(picture, region.x, region.y, region.width, region.height)
}

/// Resamples a square picture to the effective side length of a request, with
/// the Lanczos filter of three lobes.
///
/// The result is square, and its side is the requested one where that lies in
/// `MIN_SIDE..=MAX_SIDE` and `DEFAULT_SIDE` otherwise.
pub fn resample(square: &DynamicImage, requested: u32) -> (out: DynamicImage)
    requires
        dimensions_of(*square).0 == dimensions_of(*square).1,
        can_resample(dimensions_of(*square).0, dimensions_of(*square).1),
    ensures
        is_resampled(*square, requested, out),
        MIN_SIDE <= dimensions_of(out).0 <= MAX_SIDE,
        side_in_range(requested) ==> is_square_of_side(out, requested),
        !side_in_range(requested) ==> is_square_of_side(out, DEFAULT_SIDE),
{
    let target = effective_side(requested);
    assert(16 * dimensions_of(*square).0 * target <= 16 * dimensions_of(*square).0 * MAX_SIDE)
        by (nonlinear_arith)
        requires
            target <= MAX_SIDE,
    ;
    assert(16 * target * target <= isize::MAX) by (nonlinear_arith)
        requires
            target <= 512,
            isize::MAX >= 0x7fff_ffff,
    ;
    resize(square, target, target, Resampling::Lanczos3)
}

/// Crops a decoded picture to the largest square at its top-left corner and
/// resamples that square to the effective side length of the request.
///
/// The result is square, and its side is the requested one where that lies in
/// `MIN_SIDE..=MAX_SIDE` and `DEFAULT_SIDE` otherwise.
pub fn thumbnail(picture: &DynamicImage, requested: u32) -> (out: DynamicImage)
    requires
        can_resample(dimensions_of(*picture).0, dimensions_of(*picture).1),
    ensures
        is_thumbnail_of(*picture, requested, out),
        MIN_SIDE <= dimensions_of(out).0 <= MAX_SIDE,
        side_in_range(requested) ==> is_square_of_side(out, requested),
        !side_in_range(requested) ==> is_square_of_side(out, DEFAULT_SIDE),
{
    let square = square_crop(picture);
    resample(&square, requested)
}

/// Encodes a resampled picture as JPEG of the highest quality and notes its
/// width as the side of the thumbnail.
pub fn encode_thumbnail(small: &DynamicImage) -> (result: Result<NormalizedImage, NormalizeError>)
    ensures
        result_view(result) == encoding_of(*small),
{
    let (side, _) = picture_size(small);
    match encode_jpeg(small, JPEG_QUALITY) {
        Ok(jpeg) => Ok(NormalizedImage { jpeg, side }),
        Err(error) => Err(NormalizeError::Encode(error)),
    }
}

/// Takes what decoding returned and does the rest: a failure to decode is
/// handed on, a picture that cannot be resampled is rejected with its size,
/// and any other is cropped, resampled and encoded.
///
/// In the last case the result is the encoding of a thumbnail of the picture:
/// JPEG bytes with the effective side length of the request, or an error of
/// the encoder.
pub fn normalize_decoded(decoded: Result<DynamicImage, ImageError>, requested: u32) -> (result:
    Result<NormalizedImage, NormalizeError>)
    ensures
        ends_decoded(decoded, requested, result_view(result)),
        result matches Ok(image) ==> {
            &&& decoded matches Ok(picture)
            &&& can_resample(dimensions_of(picture).0, dimensions_of(picture).1)
            &&& image.wf()
            &&& image.side == effective_side_of(requested)
        },
        result matches Err(NormalizeError::Encode(_)) ==> {
            &&& decoded matches Ok(picture)
            &&& can_resample(dimensions_of(picture).0, dimensions_of(picture).1)
        },
{
    let picture = match decoded {
        Ok(picture) => picture,
        Err(error) => {
            return Err(NormalizeError::Decode(error));
        },
    };
    let (width, height) = picture_size(&picture);
    if !check_dimensions(width, height) {
        return Err(NormalizeError::Dimensions { width, height });
    }
    let small = thumbnail(&picture, requested);
    let result = encode_thumbnail(&small);
    assert(is_thumbnail_of(picture, requested, small) && result_view(result) == encoding_of(
        small,
    ));
    result
}

/// Decodes a picture, crops it to the largest square at its top-left corner,
/// resamples that square to the effective side length and encodes it as JPEG
/// of the highest quality.
///
/// Whether the bytes decode, and to which pixels, is the decoder's to say.
/// The result is what follows, by `normalize_decoded`, from something that
/// the decoder may return for these bytes. So a thumbnail that comes back is
/// the encoder's work, and it has the requested side where that lies in
/// `MIN_SIDE..=MAX_SIDE`, the bounds included, and `DEFAULT_SIDE` otherwise.
pub fn normalize(bytes: &[u8], requested: u32) -> (result: Result<NormalizedImage, NormalizeError>)
    ensures
        normalizes_to(bytes@, requested, result_view(result)),
        result matches Ok(image) ==> image.wf() && image.side == effective_side_of(requested),
        result matches Ok(image) ==> (side_in_range(requested) ==> image.side == requested),
        result matches Ok(image) ==> (!side_in_range(requested) ==> image.side == DEFAULT_SIDE),
{
    let decoded = decode(bytes);
    let ghost returned = decoded;
    let result = normalize_decoded(decoded, requested);
    assert(decoding(bytes@, returned) && ends_decoded(returned, requested, result_view(result)));
    result
}

} // verus!
