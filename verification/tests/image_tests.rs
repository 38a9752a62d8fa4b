//! The image transformer: crop geometry, resizing, decoding, encoding.

use howto_upload::IMAGE_SIZE;
use howto_upload::errors::UploadError;
use howto_upload::images::crop_rect;
use howto_upload::images::crop_to_square;
use howto_upload::images::height_of;
use howto_upload::images::pixel_at;
use howto_upload::images::transform;
use howto_upload::images::width_of;

fn rgba(r: u8, g: u8, b: u8) -> image::Rgba<u8> {
    image::Rgba([r, g, b, 255])
}

/// A `w × h` image whose pixel at `(x, y)` is `(x as u8 * 16, y as u8 * 16, 7)`.
fn synthetic(w: u32, h: u32) -> image::DynamicImage {
    let mut img = image::RgbaImage::new(w, h);
    for y in 0..h {
        for x in 0..w {
            img.put_pixel(x, y, rgba((x * 16) as u8, (y * 16) as u8, 7));
        }
    }
    image::DynamicImage::ImageRgba8(img)
}

fn png_bytes(img: &image::DynamicImage) -> Vec<u8> {
    let mut cursor = std::io::Cursor::new(Vec::new());
    img.write_to(&mut cursor, image::ImageFormat::Png).expect("png encode");
    cursor.into_inner()
}

#[test]
fn crop_rect_geometry() {
    assert_eq!(crop_rect(4, 2), (1, 0, 2));
    assert_eq!(crop_rect(2, 4), (0, 1, 2));
    assert_eq!(crop_rect(5, 5), (0, 0, 5));
    // the one-pixel residue of an odd excess goes to the far edge
    assert_eq!(crop_rect(5, 2), (1, 0, 2));
    assert_eq!(crop_rect(2, 5), (0, 1, 2));
}

#[test]
fn landscape_crop_keeps_height_and_centers() {
    let img = synthetic(4, 2);
    let cropped = crop_to_square(&img);
    assert_eq!(width_of(&cropped), 2);
    assert_eq!(height_of(&cropped), 2);
    // the square starts one column in: corners match source columns 1..3
    assert_eq!(pixel_at(&cropped, 0, 0), (16, 0, 7, 255));
    assert_eq!(pixel_at(&cropped, 1, 0), (32, 0, 7, 255));
    assert_eq!(pixel_at(&cropped, 0, 1), (16, 16, 7, 255));
    assert_eq!(pixel_at(&cropped, 1, 1), (32, 16, 7, 255));
}

#[test]
fn portrait_crop_keeps_width_and_centers() {
    let img = synthetic(2, 4);
    let cropped = crop_to_square(&img);
    assert_eq!(width_of(&cropped), 2);
    assert_eq!(height_of(&cropped), 2);
    // the square starts one row down: corners match source rows 1..3
    assert_eq!(pixel_at(&cropped, 0, 0), (0, 16, 7, 255));
    assert_eq!(pixel_at(&cropped, 1, 0), (16, 16, 7, 255));
    assert_eq!(pixel_at(&cropped, 0, 1), (0, 32, 7, 255));
    assert_eq!(pixel_at(&cropped, 1, 1), (16, 32, 7, 255));
}

#[test]
fn square_input_is_left_unmoved() {
    let img = synthetic(3, 3);
    let cropped = crop_to_square(&img);
    assert_eq!(width_of(&cropped), 3);
    assert_eq!(height_of(&cropped), 3);
    assert_eq!(pixel_at(&cropped, 0, 0), (0, 0, 7, 255));
    assert_eq!(pixel_at(&cropped, 2, 2), (32, 32, 7, 255));
}

#[test]
fn transform_yields_exact_target_dimensions() {
    let bytes = png_bytes(&synthetic(10, 6));
    let out = transform(&bytes, 8).expect("transform");
    assert_eq!(width_of(&out.image), 8);
    assert_eq!(height_of(&out.image), 8);
}

#[test]
fn transform_upscales_small_images() {
    let bytes = png_bytes(&synthetic(3, 3));
    let out = transform(&bytes, 16).expect("transform");
    assert_eq!(width_of(&out.image), 16);
    assert_eq!(height_of(&out.image), 16);
}

#[test]
fn transform_to_standard_size() {
    let bytes = png_bytes(&synthetic(40, 30));
    let out = transform(&bytes, IMAGE_SIZE).expect("transform");
    assert_eq!(width_of(&out.image), IMAGE_SIZE);
    assert_eq!(height_of(&out.image), IMAGE_SIZE);
}

#[test]
fn transform_emits_decodable_jpeg() {
    let bytes = png_bytes(&synthetic(6, 4));
    let out = transform(&bytes, 8).expect("transform");
    let reloaded = image::load_from_memory(&out.jpeg).expect("jpeg decode");
    assert_eq!(image::GenericImageView::dimensions(&reloaded), (8, 8));
}

#[test]
fn transform_rejects_rasters_the_encoder_cannot_take() {
    // a 16-bit grayscale PNG decodes, but its samples do not fit the
    // 8-bit JPEG encoder, so the pipeline cannot store it
    let img = image::DynamicImage::ImageLuma16(image::ImageBuffer::from_pixel(
        4,
        4,
        image::Luma([1000u16]),
    ));
    let mut cursor = std::io::Cursor::new(Vec::new());
    img.write_to(&mut cursor, image::ImageFormat::Png).expect("png encode");
    let bytes = cursor.into_inner();
    assert!(matches!(transform(&bytes, 8), Err(UploadError::DecodeError)));
}

#[test]
fn transform_rejects_undecodable_bytes() {
    let garbage = vec![1u8, 2, 3, 4, 5];
    assert!(matches!(transform(&garbage, 8), Err(UploadError::DecodeError)));
    let empty: Vec<u8> = Vec::new();
    assert!(matches!(transform(&empty, 8), Err(UploadError::DecodeError)));
}
