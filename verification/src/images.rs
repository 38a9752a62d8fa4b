//! The image transformer: decode an in-memory byte buffer, crop it to a
//! centered square along its longer axis, resize it to a fixed square
//! dimension with a high-quality resampling filter, and encode the result
//! as JPEG for storage.
//!
//! The raster type of the `image` crate is opaque to the verifier; what
//! the contracts say about a raster they say through abstractions: its
//! pixel grid (rows of 8-bit RGBA samples, as `get_pixel` reports them),
//! its dimensions, whether its sample format is one the JPEG encoder
//! takes, and named results for the decoder, the resampler and the
//! encoder, each a deterministic function of its arguments alone.  The
//! crop geometry itself is computed and proved here.

use vstd::prelude::*;
use crate::errors::UploadError;

verus! {

/// The pixel grid of a raster: one row per scanline, each pixel converted
/// to 8-bit RGBA the way `GenericImageView::get_pixel` reports it.
pub uninterp spec fn image_pixels(img: image::DynamicImage) -> Seq<Seq<(u8, u8, u8, u8)>>;

/// Width and height of a raster in pixels.
pub uninterp spec fn image_dims(img: image::DynamicImage) -> (u32, u32);

/// Whether the raster's sample format is one the JPEG encoder takes:
/// 8-bit luma or RGB, with or without alpha.
pub uninterp spec fn jpeg_encodable_format(img: image::DynamicImage) -> bool;

/// Whether `image::load_from_memory` accepts these bytes; decoding is
/// deterministic on the byte buffer alone.
pub uninterp spec fn decodes_ok(bytes: Seq<u8>) -> bool;

/// The dimensions of the raster these bytes decode to — a function of
/// the bytes alone.
pub uninterp spec fn decoded_dims(bytes: Seq<u8>) -> (u32, u32);

/// The pixel grid of the raster these bytes decode to — a function of
/// the bytes alone.
pub uninterp spec fn decoded_pixels(bytes: Seq<u8>) -> Seq<Seq<(u8, u8, u8, u8)>>;

/// Whether the raster these bytes decode to has a JPEG-encodable sample
/// format — a function of the bytes alone.
pub uninterp spec fn decoded_jpeg_encodable(bytes: Seq<u8>) -> bool;

/// The pixel grid `DynamicImage::resize` yields for this raster with
/// square bounds `side` and the `Lanczos3` filter; the resampler is
/// deterministic on the raster, the bounds and the filter alone.
pub uninterp spec fn lanczos_square_of(img: image::DynamicImage, side: u32) -> Seq<
    Seq<(u8, u8, u8, u8)>,
>;

/// The bytes `DynamicImage::write_to` produces for this raster in JPEG
/// format at the default quality; the encoder is deterministic on the
/// raster alone.
pub uninterp spec fn jpeg_encoding_of(img: image::DynamicImage) -> Seq<u8>;

/// The uploaded bytes decode to a raster the pipeline can store: both
/// dimensions positive, and a sample format the JPEG encoder takes.
pub open spec fn image_storable(bytes: Seq<u8>) -> bool {
    decodes_ok(bytes) && decoded_dims(bytes).0 >= 1 && decoded_dims(bytes).1 >= 1
        && decoded_jpeg_encodable(bytes)
}

#[verifier::external_type_specification]
#[verifier::external_body]
pub struct ExDynamicImage(image::DynamicImage);

/// Relies on `image::load_from_memory`: decoding either yields a raster
/// or fails, deterministically on the bytes, so the raster's dimensions,
/// pixel grid and sample format are functions of the bytes.
#[verifier::external_body]
fn decode_image(bytes: &Vec<u8>) -> (r: Result<image::DynamicImage, UploadError>)
    ensures
        r is Ok <==> decodes_ok(bytes@),
        r matches Ok(img) ==> image_dims(img) == decoded_dims(bytes@) && image_pixels(img)
            == decoded_pixels(bytes@) && jpeg_encodable_format(img) == decoded_jpeg_encodable(
            bytes@,
        ),
        r matches Err(e) ==> e == UploadError::DecodeError,
{
    match image::load_from_memory(bytes.as_slice()) {
        Ok(img) => Ok(img),
        Err(_) => Err(UploadError::DecodeError),
    }
}

/// Relies on `GenericImageView::dimensions` for `DynamicImage`: the pixel
/// grid is a rectangle of `height` rows, each `width` pixels wide.
#[verifier::external_body]
fn dimensions_of(img: &image::DynamicImage) -> (r: (u32, u32))
    ensures
        r == image_dims(*img),
        image_pixels(*img).len() == r.1 as int,
        forall|j: int|
            0 <= j < r.1 as int ==> (#[trigger] image_pixels(*img)[j]).len() == r.0 as int,
{
    image::GenericImageView::dimensions(img)
}

/// Relies on `DynamicImage::crop_imm`: with an in-bounds rectangle the
/// result is exactly the cut-out, pixel for pixel, copied in the same
/// sample format.
#[verifier::external_body]
fn crop_image(img: &image::DynamicImage, x: u32, y: u32, w: u32, h: u32) -> (r:
    image::DynamicImage)
    requires
        x + w <= image_dims(*img).0,
        y + h <= image_dims(*img).1,
    ensures
        image_dims(r) == (w, h),
        image_pixels(r).len() == h as int,
        forall|j: int| 0 <= j < h as int ==> (#[trigger] image_pixels(r)[j]).len() == w as int,
        forall|j: int, i: int|
            0 <= j < h as int && 0 <= i < w as int ==> #[trigger] image_pixels(r)[j][i]
                == image_pixels(*img)[y + j][x + i],
        jpeg_encodable_format(r) == jpeg_encodable_format(*img),
{
    img.crop_imm(x, y, w, h)
}

/// Relies on `DynamicImage::resize` with the `Lanczos3` filter: the
/// aspect ratio is preserved and the result fits the given bounds
/// maximally, so a square image scaled to square bounds comes back with
/// exactly those dimensions; the resample keeps the sample format and is
/// deterministic, which grounds the name for its pixel grid.
#[verifier::external_body]
fn resize_square(img: &image::DynamicImage, side: u32) -> (r: image::DynamicImage)
    requires
        1 <= side,
        1 <= image_dims(*img).0,
        image_dims(*img).0 == image_dims(*img).1,
    ensures
        image_dims(r) == (side, side),
        image_pixels(r).len() == side as int,
        forall|j: int| 0 <= j < side as int ==> (#[trigger] image_pixels(r)[j]).len() == side as int,
        image_pixels(r) == lanczos_square_of(*img, side),
        jpeg_encodable_format(r) == jpeg_encodable_format(*img),
{
    img.resize(side, side, image::imageops::FilterType::Lanczos3)
}

/// Relies on `DynamicImage::write_to` with the JPEG format: encoding
/// succeeds exactly when the sample format is 8-bit and both dimensions
/// fit the format's 16-bit size fields, and the buffer then holds the
/// deterministic JPEG encoding of the raster.
#[verifier::external_body]
fn encode_jpeg(img: &image::DynamicImage) -> (r: Result<Vec<u8>, UploadError>)
    ensures
        r is Ok <==> (jpeg_encodable_format(*img) && image_dims(*img).0 <= 65535 && image_dims(*img).1 <= 65535),
        r is Ok ==> r->Ok_0@ == jpeg_encoding_of(*img),
        r matches Err(e) ==> e == UploadError::DecodeError,
{
    let mut cursor = std::io::Cursor::new(Vec::new());
    match img.write_to(&mut cursor, image::ImageFormat::Jpeg) {
        Ok(_) => Ok(cursor.into_inner()),
        Err(_) => Err(UploadError::DecodeError),
    }
}

/// Relies on `GenericImageView::get_pixel` for `DynamicImage`: the pixel
/// at column `x`, row `y`, converted to 8-bit RGBA.
#[verifier::external_body]
fn get_pixel_rgba(img: &image::DynamicImage, x: u32, y: u32) -> (r: (u8, u8, u8, u8))
    requires
        x < image_dims(*img).0,
        y < image_dims(*img).1,
    ensures
        r == image_pixels(*img)[y as int][x as int],
{
    let p = image::GenericImageView::get_pixel(img, x, y);
    (p.0[0], p.0[1], p.0[2], p.0[3])
}

/// The RGBA value of the pixel at column `x`, row `y`.
pub fn pixel_at(img: &image::DynamicImage, x: u32, y: u32) -> (r: (u8, u8, u8, u8))
    requires
        x < image_dims(*img).0,
        y < image_dims(*img).1,
    ensures
        r == image_pixels(*img)[y as int][x as int],
{
    get_pixel_rgba(img, x, y)
}

/// Width of the raster, for callers that hold one.
pub fn width_of(img: &image::DynamicImage) -> (r: u32)
    ensures
        r == image_dims(*img).0,
{
    let (w, _) = dimensions_of(img);
    w
}

/// Height of the raster, for callers that hold one.
pub fn height_of(img: &image::DynamicImage) -> (r: u32)
    ensures
        r == image_dims(*img).1,
{
    let (_, h) = dimensions_of(img);
    h
}

/// Side of the centered square cut from a `w × h` image: the shorter axis.
pub open spec fn cropped_side(w: int, h: int) -> int {
    if w <= h {
        w
    } else {
        h
    }
}

/// `sq` is exactly the centered square cut from a `w × h` grid `px`: its
/// side is the shorter axis, and its pixel at `(i, j)` is the grid's at
/// `((w - side) / 2 + i, (h - side) / 2 + j)` — the excess along the
/// longer axis halved with integer truncation.
pub open spec fn centered_square_cut(
    w: int,
    h: int,
    px: Seq<Seq<(u8, u8, u8, u8)>>,
    sq: image::DynamicImage,
) -> bool {
    &&& image_dims(sq).0 == cropped_side(w, h)
    &&& image_dims(sq).1 == cropped_side(w, h)
    &&& image_pixels(sq).len() == cropped_side(w, h)
    &&& forall|j: int|
        0 <= j < cropped_side(w, h) ==> (#[trigger] image_pixels(sq)[j]).len() == cropped_side(w, h)
    &&& forall|j: int, i: int|
        0 <= j < cropped_side(w, h) && 0 <= i < cropped_side(w, h)
            ==> #[trigger] image_pixels(sq)[j][i] == px[(h - cropped_side(w, h)) / 2 + j][(w
            - cropped_side(w, h)) / 2 + i]
}

/// Computes the centered square to cut from a `w × h` image: x offset, y
/// offset, and side.  The excess along the longer axis is halved with
/// integer truncation, so a one-pixel residue goes to the far edge.
pub fn crop_rect(w: u32, h: u32) -> (r: (u32, u32, u32))
    ensures
        w > h ==> r.0 == (w - h) / 2 && r.1 == 0 && r.2 == h,
        h > w ==> r.0 == 0 && r.1 == (h - w) / 2 && r.2 == w,
        w == h ==> r.0 == 0 && r.1 == 0 && r.2 == w,
        r.2 == cropped_side(w as int, h as int),
        r.0 + r.2 <= w,
        r.1 + r.2 <= h,
        r.0 == (w - r.2) / 2 && r.1 == (h - r.2) / 2,
{
    if w > h {
        ((w - h) / 2, 0, h)
    } else if h > w {
        (0, (h - w) / 2, w)
    } else {
        (0, 0, w)
    }
}

/// Cuts the centered square along the longer axis: a landscape image
/// keeps its height, a portrait its width, a square is copied unchanged.
/// The result is square, its side the shorter axis of the source, and
/// its content the centrally positioned cut-out, pixel for pixel, in the
/// source's sample format.
pub fn crop_to_square(img: &image::DynamicImage) -> (r: image::DynamicImage)
    ensures
        centered_square_cut(
            image_dims(*img).0 as int,
            image_dims(*img).1 as int,
            image_pixels(*img),
            r,
        ),
        jpeg_encodable_format(r) == jpeg_encodable_format(*img),
{
    let (w, h) = dimensions_of(img);
    let (x, y, s) = crop_rect(w, h);
    crop_image(img, x, y, s, s)
}

/// Crops the raster to its centered square and resizes it to
/// `target × target`, upscaling when the source is smaller.  Returns the
/// pair of the cut-out square and the resized result: the square is
/// exactly the centered cut, and the result's pixel grid is exactly the
/// Lanczos resample of that square, with the target dimensions whatever
/// the original aspect ratio or size.
pub fn transform_raster(img: &image::DynamicImage, target: u32) -> (r: (
    image::DynamicImage,
    image::DynamicImage,
))
    requires
        1 <= target,
        1 <= image_dims(*img).0,
        1 <= image_dims(*img).1,
    ensures
        centered_square_cut(
            image_dims(*img).0 as int,
            image_dims(*img).1 as int,
            image_pixels(*img),
            r.0,
        ),
        image_dims(r.1) == (target, target),
        image_pixels(r.1) == lanczos_square_of(r.0, target),
        jpeg_encodable_format(r.0) == jpeg_encodable_format(*img),
        jpeg_encodable_format(r.1) == jpeg_encodable_format(*img),
{
    let sq = crop_to_square(img);
    let resized = resize_square(&sq, target);
    (sq, resized)
}

/// The derived images of an upload: the centered square cut from the
/// decoded raster, the square resampled to the target side, and the
/// JPEG encoding of the latter, ready to persist.
pub struct TransformedImage {
    /// The centered cut-out handed to the resize step.
    pub square: image::DynamicImage,
    /// The `target × target` raster.
    pub image: image::DynamicImage,
    /// Its JPEG encoding.
    pub jpeg: Vec<u8>,
}

/// Decodes the uploaded bytes, crops the raster to its centered square,
/// resizes it to `target × target`, and encodes the result as JPEG.  The
/// transform succeeds exactly when the bytes decode to a raster with two
/// positive dimensions whose sample format the JPEG encoder takes; every
/// failure is a `DecodeError`, since such bytes cannot be stored as an
/// image.  On success the square is exactly the centered cut of the
/// decoded grid and the stored raster exactly its resample.
pub fn transform(raw: &Vec<u8>, target: u32) -> (r: Result<TransformedImage, UploadError>)
    requires
        1 <= target <= 65535,
    ensures
        r is Ok <==> image_storable(raw@),
        r matches Err(e) ==> e == UploadError::DecodeError,
        r matches Ok(out) ==> centered_square_cut(
            decoded_dims(raw@).0 as int,
            decoded_dims(raw@).1 as int,
            decoded_pixels(raw@),
            out.square,
        ) && image_dims(out.image) == (target, target) && image_pixels(out.image)
            == lanczos_square_of(out.square, target) && out.jpeg@ == jpeg_encoding_of(out.image),
{
    let img = match decode_image(raw) {
        Ok(img) => img,
        Err(e) => {
            return Err(e);
        },
    };
    let (w, h) = dimensions_of(&img);
    if w == 0 || h == 0 {
        return Err(UploadError::DecodeError);
    }
    let (square, resized) = transform_raster(&img, target);
    let jpeg = match encode_jpeg(&resized) {
        Ok(jpeg) => jpeg,
        Err(e) => {
            return Err(e);
        },
    };
    Ok(TransformedImage { square, image: resized, jpeg })
}

} // verus!
