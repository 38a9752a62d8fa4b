//! The upload orchestrator: drive the demultiplexer over the body's
//! fields, require the three fields present, trim and validate the
//! title, transform the image, generate a file name, and persist the
//! step row together with its join row in one atomic operation.
//! Validator and demultiplexer failures are detected before any
//! persistence begins; a gateway failure leaves the store exactly as it
//! was.  The derived image file is handed back to the caller to write
//! only after the rows are committed, so a failed commit never leaves an
//! orphaned file behind.

use vstd::prelude::*;
use crate::DEFAULT_POSITION;
use crate::IMAGE_SIZE;
use crate::TITLE_MAX;
use crate::errors::UploadError;
use crate::images::TransformedImage;
use crate::images::centered_square_cut;
use crate::images::decoded_dims;
use crate::images::decoded_pixels;
use crate::images::image_dims;
use crate::images::image_pixels;
use crate::images::image_storable;
use crate::images::jpeg_encoding_of;
use crate::images::lanczos_square_of;
use crate::images::transform;
use crate::multipart::FieldsModel;
use crate::multipart::MultipartField;
use crate::multipart::demux_spec;
use crate::multipart::demux_fields;
use crate::namegen::is_hex_digit_char;
use crate::namegen::new_name;
use crate::store::InstructionStep;
use crate::store::Store;
use crate::store::has_instruction_id;
use crate::store::has_step_id;
use crate::validate::trim_spec;
use crate::validate::validate_title;

verus! {

/// What a successful upload reports back: the composed row data of the
/// new step and its join row.
pub struct CreateStepResponse {
    pub position: i32,
    pub howto_id: i32,
    pub step_id: i32,
    pub title: String,
    pub image_filename: String,
}

/// A successful upload: the response to serialize, and the derived
/// image to write to the file store under the response's file name.
pub struct UploadOutcome {
    pub response: CreateStepResponse,
    pub image: TransformedImage,
}

/// Whether all three required fields arrived.
pub open spec fn required_present(m: FieldsModel) -> bool {
    m.how_to_id is Some && m.title is Some && m.image is Some
}

/// How a committed upload relates the store before, the store after,
/// and the response: exactly one step row and one join row were
/// appended, carrying the response's data, under a fresh generated step
/// id, for an instruction that already existed.
pub open spec fn upload_committed(pre: Store, post: Store, resp: CreateStepResponse) -> bool {
    &&& has_instruction_id(pre.instructions@, resp.howto_id)
    &&& resp.step_id == pre.next_step_id
    &&& resp.position == DEFAULT_POSITION
    &&& post.next_step_id == pre.next_step_id + 1
    &&& post.next_instruction_id == pre.next_instruction_id
    &&& post.instructions@ == pre.instructions@
    &&& post.steps@.len() == pre.steps@.len() + 1
    &&& post.steps@ == pre.steps@.push(post.steps@.last())
    &&& post.steps@.last().id == resp.step_id
    &&& post.steps@.last().title == resp.title
    &&& post.steps@.last().seconds is None
    &&& post.steps@.last().image_filename == Some(resp.image_filename)
    &&& post.joins@ == pre.joins@.push(
        InstructionStep {
            instruction_id: resp.howto_id,
            step_id: resp.step_id,
            position: resp.position,
        },
    )
}

/// The end-to-end "create step with image" use case over the fields of
/// a multipart body.  Every failure leaves the store untouched; on
/// success exactly the step row and its join row were appended, the
/// response carries the parsed instruction id, the trimmed title and a
/// fresh generated file name of 32 hexadecimal digits plus the JPEG
/// extension, and the derived image is the centered square cut of the
/// decoded upload, resampled to the standard size.  Success is owed
/// whenever the fields are complete, the title is in bounds, the bytes
/// decode to a storable raster, the parent instruction exists and id
/// space remains.
pub fn img_upload(store: &mut Store, fields: &Vec<MultipartField>) -> (r: Result<
    UploadOutcome,
    UploadError,
>)
    requires
        old(store).wf(),
    ensures
        final(store).wf(),
        r is Err ==> *final(store) == *old(store),
        demux_spec(fields@) matches Err(e) ==> r == Err::<UploadOutcome, UploadError>(e),
        demux_spec(fields@) matches Ok(m) && !required_present(m) ==> r == Err::<
            UploadOutcome,
            UploadError,
        >(UploadError::MissingRequiredField),
        demux_spec(fields@) matches Ok(m) && required_present(m) && trim_spec(m.title->0).len()
            > TITLE_MAX ==> r == Err::<UploadOutcome, UploadError>(
            UploadError::ValidationError(crate::errors::ValidationError::TooLong),
        ),
        demux_spec(fields@) matches Ok(m) && required_present(m) && trim_spec(m.title->0).len()
            == 0 ==> r == Err::<UploadOutcome, UploadError>(
            UploadError::ValidationError(crate::errors::ValidationError::TooShort),
        ),
        demux_spec(fields@) matches Ok(m) && required_present(m) && 1 <= trim_spec(
            m.title->0,
        ).len() <= TITLE_MAX && !image_storable(m.image->0) ==> r == Err::<
            UploadOutcome,
            UploadError,
        >(UploadError::DecodeError),
        demux_spec(fields@) matches Ok(m) && required_present(m) && 1 <= trim_spec(
            m.title->0,
        ).len() <= TITLE_MAX && image_storable(m.image->0) && old(store).has_instruction(
            m.how_to_id->0,
        ) && old(store).next_step_id < i32::MAX ==> r is Ok,
        demux_spec(fields@) matches Ok(m) && required_present(m) && 1 <= trim_spec(
            m.title->0,
        ).len() <= TITLE_MAX && image_storable(m.image->0) && !old(store).has_instruction(
            m.how_to_id->0,
        ) ==> r == Err::<UploadOutcome, UploadError>(
            UploadError::DatabaseError(crate::errors::StoreError::ForeignKeyViolation),
        ),
        demux_spec(fields@) matches Ok(m) && required_present(m) && 1 <= trim_spec(
            m.title->0,
        ).len() <= TITLE_MAX && image_storable(m.image->0) && old(store).has_instruction(
            m.how_to_id->0,
        ) && old(store).next_step_id == i32::MAX ==> r == Err::<UploadOutcome, UploadError>(
            UploadError::DatabaseError(crate::errors::StoreError::IdSpaceExhausted),
        ),
        r matches Err(UploadError::DatabaseError(se)) ==> (se
            == crate::errors::StoreError::ForeignKeyViolation && demux_spec(fields@) is Ok && !old(
            store,
        ).has_instruction(demux_spec(fields@)->Ok_0.how_to_id->0)) || (se
            == crate::errors::StoreError::IdSpaceExhausted && old(store).next_step_id == i32::MAX),
        r matches Ok(out) ==> demux_spec(fields@) matches Ok(m) && required_present(m)
            && 1 <= trim_spec(m.title->0).len() <= TITLE_MAX
            && image_storable(m.image->0)
            && upload_committed(*old(store), *final(store), out.response)
            && out.response.howto_id == m.how_to_id->0
            && out.response.title@ == trim_spec(m.title->0)
            && centered_square_cut(
                decoded_dims(m.image->0).0 as int,
                decoded_dims(m.image->0).1 as int,
                decoded_pixels(m.image->0),
                out.image.square,
            )
            && image_dims(out.image.image) == (IMAGE_SIZE, IMAGE_SIZE)
            && image_pixels(out.image.image) == lanczos_square_of(out.image.square, IMAGE_SIZE)
            && out.image.jpeg@ == jpeg_encoding_of(out.image.image)
            && out.response.image_filename@.len() == 36
            && out.response.image_filename@.subrange(32, 36) == ".jpg"@
            && (forall|i: int|
                0 <= i < 32 ==> is_hex_digit_char(#[trigger] out.response.image_filename@[i])),
{
    let parsed = match demux_fields(fields) {
        Ok(p) => p,
        Err(e) => {
            proof {
                crate::multipart::lemma_demux_err_malformed(fields@);
            }
            return Err(e);
        },
    };
    let how_to_id = match parsed.how_to_id {
        Some(v) => v,
        None => {
            return Err(UploadError::MissingRequiredField);
        },
    };
    let title_raw = match parsed.title {
        Some(t) => t,
        None => {
            return Err(UploadError::MissingRequiredField);
        },
    };
    let image_bytes = match parsed.image {
        Some(b) => b,
        None => {
            return Err(UploadError::MissingRequiredField);
        },
    };
    let title = match validate_title(title_raw.as_str()) {
        Ok(t) => t,
        Err(e) => {
            return Err(UploadError::ValidationError(e));
        },
    };
    let derived = match transform(&image_bytes, IMAGE_SIZE) {
        Ok(t) => t,
        Err(e) => {
            return Err(e);
        },
    };
    let filename = new_name("jpg");
    proof {
        reveal_strlit(".");
        reveal_strlit("jpg");
        reveal_strlit(".jpg");
        assert(filename@.subrange(32, 36) =~= ".jpg"@);
    }
    let stored_name = filename.clone();
    let (st, j) = match store.create_step_with_join(
        how_to_id,
        title,
        None,
        Some(stored_name),
        DEFAULT_POSITION,
    ) {
        Ok(p) => p,
        Err(se) => {
            return Err(UploadError::DatabaseError(se));
        },
    };
    Ok(
        UploadOutcome {
            response: CreateStepResponse {
                position: j.position,
                howto_id: j.instruction_id,
                step_id: st.id,
                title: st.title,
                image_filename: filename,
            },
            image: derived,
        },
    )
}

/// Re-submitting a body is never deduplicated: two committed uploads
/// create two distinct step rows, both present afterwards, whatever the
/// bodies held.  (The generated file names are random; that they also
/// differ is a statistical matter, not a provable one.)
pub proof fn lemma_resubmission_distinct(
    pre: Store,
    mid: Store,
    post: Store,
    r1: CreateStepResponse,
    r2: CreateStepResponse,
)
    requires
        upload_committed(pre, mid, r1),
        upload_committed(mid, post, r2),
    ensures
        r1.step_id != r2.step_id,
        has_step_id(post.steps@, r1.step_id),
        has_step_id(post.steps@, r2.step_id),
{
    assert(post.steps@[post.steps@.len() - 2] == mid.steps@[mid.steps@.len() - 1]);
    assert(post.steps@[post.steps@.len() - 2].id == r1.step_id);
    assert(post.steps@[post.steps@.len() - 1].id == r2.step_id);
}

} // verus!
