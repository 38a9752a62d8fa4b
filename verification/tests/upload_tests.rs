//! The end-to-end upload orchestration over multipart fields.

use howto_upload::errors::StoreError;
use howto_upload::errors::UploadError;
use howto_upload::errors::ValidationError;
use howto_upload::handlers::hey;
use howto_upload::handlers::upload_test;
use howto_upload::errors::ServerError;
use howto_upload::multipart::MultipartField;
use howto_upload::multipart::demux_fields;
use howto_upload::namegen::new_name;
use howto_upload::store::Store;
use howto_upload::upload::img_upload;

fn field(name: &str, data: &[u8]) -> MultipartField {
    MultipartField { name: String::from(name), data: data.to_vec() }
}

fn jpeg_fixture() -> Vec<u8> {
    let mut img = image::RgbaImage::new(12, 8);
    for y in 0..8 {
        for x in 0..12 {
            img.put_pixel(x, y, image::Rgba([x as u8 * 10, y as u8 * 10, 99, 255]));
        }
    }
    let mut cursor = std::io::Cursor::new(Vec::new());
    image::DynamicImage::ImageRgba8(img)
        .write_to(&mut cursor, image::ImageFormat::Jpeg)
        .expect("jpeg encode");
    cursor.into_inner()
}

/// A store whose instruction ids run up to 7, so `howToId=7` resolves.
fn store_with_seven_instructions() -> Store {
    let mut store = Store::new();
    for i in 0..7 {
        store.insert_instruction(format!("instruction {}", i)).unwrap();
    }
    store
}

fn valid_body() -> Vec<MultipartField> {
    vec![
        field("howToId", b"7"),
        field("title", b"Boil water"),
        field("image", &jpeg_fixture()),
    ]
}

#[test]
fn round_trip_creates_step_and_join() {
    let mut store = store_with_seven_instructions();
    let out = img_upload(&mut store, &valid_body()).expect("upload");
    let resp = out.response;
    assert_eq!(resp.howto_id, 7);
    assert_eq!(resp.title, "Boil water");
    assert_eq!(resp.position, 0);
    assert!(resp.image_filename.ends_with(".jpg"));
    assert_eq!(resp.image_filename.len(), 36);

    assert_eq!(store.steps.len(), 1);
    let row = &store.steps[0];
    assert_eq!(row.id, resp.step_id);
    assert_eq!(row.title, "Boil water");
    assert_eq!(row.image_filename, Some(resp.image_filename.clone()));
    assert_eq!(store.joins.len(), 1);
    assert_eq!(store.joins[0].instruction_id, 7);
    assert_eq!(store.joins[0].step_id, resp.step_id);

    // the derived image is the standard square, encoded as real JPEG
    let reloaded = image::load_from_memory(&out.image.jpeg).expect("jpeg decode");
    assert_eq!(image::GenericImageView::dimensions(&reloaded), (1080, 1080));
}

#[test]
fn resubmission_creates_two_distinct_rows() {
    let mut store = store_with_seven_instructions();
    let first = img_upload(&mut store, &valid_body()).expect("first upload");
    let second = img_upload(&mut store, &valid_body()).expect("second upload");
    assert_ne!(first.response.step_id, second.response.step_id);
    assert_ne!(first.response.image_filename, second.response.image_filename);
    assert_eq!(store.steps.len(), 2);
    assert_eq!(store.joins.len(), 2);
}

#[test]
fn missing_image_field_fails_and_persists_nothing() {
    let mut store = store_with_seven_instructions();
    let body = vec![field("howToId", b"7"), field("title", b"Boil water")];
    let r = img_upload(&mut store, &body);
    assert!(matches!(r, Err(UploadError::MissingRequiredField)));
    assert_eq!(store.steps.len(), 0);
    assert_eq!(store.joins.len(), 0);
    assert_eq!(store.next_step_id, 1);
}

#[test]
fn missing_id_and_title_fields_also_fail() {
    let mut store = store_with_seven_instructions();
    let body = vec![field("title", b"Boil water"), field("image", &jpeg_fixture())];
    assert!(matches!(img_upload(&mut store, &body), Err(UploadError::MissingRequiredField)));
    let body = vec![field("howToId", b"7"), field("image", &jpeg_fixture())];
    assert!(matches!(img_upload(&mut store, &body), Err(UploadError::MissingRequiredField)));
}

#[test]
fn title_boundaries_at_eighty_characters() {
    let mut store = store_with_seven_instructions();
    let eighty = "t".repeat(80);
    let body = vec![
        field("howToId", b"7"),
        field("title", eighty.as_bytes()),
        field("image", &jpeg_fixture()),
    ];
    let out = img_upload(&mut store, &body).expect("eighty characters fit");
    assert_eq!(out.response.title, eighty);

    let eighty_one = "t".repeat(81);
    let body = vec![
        field("howToId", b"7"),
        field("title", eighty_one.as_bytes()),
        field("image", &jpeg_fixture()),
    ];
    assert!(matches!(
        img_upload(&mut store, &body),
        Err(UploadError::ValidationError(ValidationError::TooLong))
    ));

    let body = vec![
        field("howToId", b"7"),
        field("title", b"   "),
        field("image", &jpeg_fixture()),
    ];
    assert!(matches!(
        img_upload(&mut store, &body),
        Err(UploadError::ValidationError(ValidationError::TooShort))
    ));
}

#[test]
fn database_failure_after_transform_leaves_no_rows() {
    // the parent instruction does not exist, so the transaction is
    // refused after the image has already been derived; nothing may be
    // visible afterwards and no file is handed out to write
    let mut store = Store::new();
    let r = img_upload(&mut store, &valid_body());
    assert!(matches!(
        r,
        Err(UploadError::DatabaseError(StoreError::ForeignKeyViolation))
    ));
    assert_eq!(store.steps.len(), 0);
    assert_eq!(store.joins.len(), 0);
    assert_eq!(store.next_step_id, 1);
}

#[test]
fn unparsable_id_is_a_malformed_field() {
    let mut store = store_with_seven_instructions();
    let body = vec![
        field("howToId", b"seven"),
        field("title", b"Boil water"),
        field("image", &jpeg_fixture()),
    ];
    assert!(matches!(img_upload(&mut store, &body), Err(UploadError::MalformedField)));
    assert_eq!(store.steps.len(), 0);
}

#[test]
fn undecodable_image_is_a_decode_error() {
    let mut store = store_with_seven_instructions();
    let body = vec![
        field("howToId", b"7"),
        field("title", b"Boil water"),
        field("image", b"not an image"),
    ];
    assert!(matches!(img_upload(&mut store, &body), Err(UploadError::DecodeError)));
    assert_eq!(store.steps.len(), 0);
}

#[test]
fn demux_routes_ignores_and_overwrites() {
    let fields = vec![
        field("howToId", b"3"),
        field("bogus", b"ignored"),
        field("title", b"first"),
        field("title", b"second"),
        field("image", b"\x01\x02"),
    ];
    let parsed = demux_fields(&fields).expect("demux");
    assert_eq!(parsed.how_to_id, Some(3));
    // a later field of the same name wins
    assert_eq!(parsed.title, Some(String::from("second")));
    assert_eq!(parsed.image, Some(vec![1u8, 2u8]));
}

#[test]
fn demux_decodes_titles_lossily() {
    let fields = vec![field("title", &[0x42, 0xff, 0x42])];
    let parsed = demux_fields(&fields).expect("demux");
    assert_eq!(parsed.title, Some(String::from("B\u{FFFD}B")));
}

#[test]
fn generated_names_are_fresh_hex_with_extension() {
    let a = new_name("jpg");
    let b = new_name("jpg");
    assert_eq!(a.len(), 36);
    assert!(a.ends_with(".jpg"));
    assert!(a[..32].chars().all(|c| c.is_ascii_hexdigit() && !c.is_ascii_uppercase()));
    assert_ne!(a, b);
    let c = new_name("png");
    assert!(c.ends_with(".png"));
}

#[test]
fn fixed_pages_and_messages() {
    assert_eq!(hey(), "hey");
    let page = upload_test();
    assert!(page.contains("/img-upload"));
    assert!(page.contains("multipart/form-data"));
    let e = ServerError::DatabaseError(String::from("boom"));
    assert_eq!(e.message(), "database error: boom");
    let e = ServerError::FileSystemError(String::from("disk gone"));
    assert_eq!(e.message(), "file system error: disk gone");
}
