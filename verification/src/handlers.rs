//! The compute parts of the request handlers: trimming and validating
//! input, composing the gateway operations, and rendering the small
//! HTML fragments.  The HTTP layer around them only decodes requests,
//! hands plain values in, and serializes what comes back.

use vstd::prelude::*;
use crate::DEFAULT_POSITION;
use crate::TITLE_MAX;
use crate::errors::UploadError;
use crate::errors::ValidationError;
use crate::store::Instruction;
use crate::store::InstructionStep;
use crate::store::Step;
use crate::store::Store;
use crate::store::steps_linked;
use crate::validate::trim_spec;
use crate::validate::validate_title;

verus! {

/// The greeting the debug route logs.
pub fn hey() -> (r: String)
    ensures
        r@ == "hey"@,
{
    String::from_str("hey")
}

/// The static upload-test page: a bare form posting a multipart body.
pub fn upload_test() -> (r: String)
    ensures
        r@
            == "<html>\n        <head><title>Upload Test</title></head>\n        <body>\n            <form action=\"/img-upload\" method=\"POST\" enctype=\"multipart/form-data\">\n                <input type=\"file\" multiple name=\"file\"/>\n                <button type=\"submit\">Submit</button>\n            </form>\n        </body>\n    </html>"@,
{
    String::from_str(
        "<html>\n        <head><title>Upload Test</title></head>\n        <body>\n            <form action=\"/img-upload\" method=\"POST\" enctype=\"multipart/form-data\">\n                <input type=\"file\" multiple name=\"file\"/>\n                <button type=\"submit\">Submit</button>\n            </form>\n        </body>\n    </html>",
    )
}

/// Creates an instruction from a raw title: trims it, validates the
/// length, inserts the row.  Succeeds exactly when the title is in
/// bounds and id space remains.
pub fn create_howto(store: &mut Store, title: &str) -> (r: Result<Instruction, UploadError>)
    requires
        old(store).wf(),
    ensures
        final(store).wf(),
        r is Err ==> *final(store) == *old(store),
        trim_spec(title@).len() > TITLE_MAX ==> r == Err::<Instruction, UploadError>(
            UploadError::ValidationError(ValidationError::TooLong),
        ),
        trim_spec(title@).len() == 0 ==> r == Err::<Instruction, UploadError>(
            UploadError::ValidationError(ValidationError::TooShort),
        ),
        r matches Err(UploadError::DatabaseError(se)) ==> se
            == crate::errors::StoreError::IdSpaceExhausted && old(store).next_instruction_id
            == i32::MAX,
        1 <= trim_spec(title@).len() <= TITLE_MAX && old(store).next_instruction_id < i32::MAX
            ==> r is Ok,
        r matches Ok(ins) ==> ins.id == old(store).next_instruction_id && ins.title@ == trim_spec(
            title@,
        ) && final(store).instructions@ == old(store).instructions@.push(ins) && final(store).steps@ == old(store).steps@ && final(store).joins@ == old(store).joins@ && final(store).next_instruction_id == old(store).next_instruction_id + 1 && final(store).next_step_id
            == old(store).next_step_id,
{
    let trimmed = match validate_title(title) {
        Ok(t) => t,
        Err(e) => {
            return Err(UploadError::ValidationError(e));
        },
    };
    match store.insert_instruction(trimmed) {
        Ok(ins) => Ok(ins),
        Err(se) => Err(UploadError::DatabaseError(se)),
    }
}

/// Updates an instruction's title from raw input: trims, validates,
/// then writes the row.  A missing row surfaces as a gateway error, the
/// way a row-expecting query would report it.
pub fn update_howto(store: &mut Store, id: i32, title: &str) -> (r: Result<
    Instruction,
    UploadError,
>)
    requires
        old(store).wf(),
    ensures
        final(store).wf(),
        r is Err ==> *final(store) == *old(store),
        trim_spec(title@).len() > TITLE_MAX ==> r == Err::<Instruction, UploadError>(
            UploadError::ValidationError(ValidationError::TooLong),
        ),
        trim_spec(title@).len() == 0 ==> r == Err::<Instruction, UploadError>(
            UploadError::ValidationError(ValidationError::TooShort),
        ),
        r matches Err(UploadError::DatabaseError(se)) ==> se == crate::errors::StoreError::NotFound
            && !old(store).has_instruction(id),
        1 <= trim_spec(title@).len() <= TITLE_MAX && old(store).has_instruction(id) ==> r is Ok,
        r matches Ok(ins) ==> ins.id == id && ins.title@ == trim_spec(title@) && exists|k: int|
            0 <= k < old(store).instructions@.len() && (#[trigger] old(store).instructions@[k]).id
                == id && final(store).instructions@ == old(store).instructions@.update(k, ins),
        r is Ok ==> final(store).steps@ == old(store).steps@ && final(store).joins@ == old(store).joins@ && final(store).next_instruction_id == old(store).next_instruction_id && final(store).next_step_id == old(store).next_step_id,
{
    let trimmed = match validate_title(title) {
        Ok(t) => t,
        Err(e) => {
            return Err(UploadError::ValidationError(e));
        },
    };
    match store.update_instruction(id, trimmed) {
        Ok(ins) => Ok(ins),
        Err(se) => Err(UploadError::DatabaseError(se)),
    }
}

/// Creates a step under an instruction from raw input: trims and
/// validates the title, then inserts the step row and its join row in
/// one atomic operation, with the default position and no image.
pub fn create_step(store: &mut Store, howto_id: i32, title: &str, seconds: i32) -> (r: Result<
    Step,
    UploadError,
>)
    requires
        old(store).wf(),
    ensures
        final(store).wf(),
        r is Err ==> *final(store) == *old(store),
        trim_spec(title@).len() > TITLE_MAX ==> r == Err::<Step, UploadError>(
            UploadError::ValidationError(ValidationError::TooLong),
        ),
        trim_spec(title@).len() == 0 ==> r == Err::<Step, UploadError>(
            UploadError::ValidationError(ValidationError::TooShort),
        ),
        r matches Err(UploadError::DatabaseError(se)) ==> (se
            == crate::errors::StoreError::ForeignKeyViolation && !old(store).has_instruction(
            howto_id,
        )) || (se == crate::errors::StoreError::IdSpaceExhausted && old(store).next_step_id
            == i32::MAX),
        1 <= trim_spec(title@).len() <= TITLE_MAX && old(store).has_instruction(howto_id) && old(store).next_step_id < i32::MAX ==> r is Ok,
        r matches Ok(st) ==> st.id == old(store).next_step_id && st.title@ == trim_spec(title@)
            && st.seconds == Some(seconds) && st.image_filename is None && final(store).steps@
            == old(store).steps@.push(st) && final(store).joins@ == old(store).joins@.push(
            InstructionStep { instruction_id: howto_id, step_id: st.id, position: DEFAULT_POSITION },
        ) && final(store).instructions@ == old(store).instructions@ && final(store).next_step_id
            == old(store).next_step_id + 1 && final(store).next_instruction_id == old(store).next_instruction_id,
{
    let trimmed = match validate_title(title) {
        Ok(t) => t,
        Err(e) => {
            return Err(UploadError::ValidationError(e));
        },
    };
    match store.create_step_with_join(howto_id, trimmed, Some(seconds), None, DEFAULT_POSITION) {
        Ok(p) => Ok(p.0),
        Err(se) => Err(UploadError::DatabaseError(se)),
    }
}

/// The data of an instruction's page: the instruction row and its
/// linked steps, ascending by step id.
pub fn howto_page(store: &Store, id: i32) -> (r: Option<(Instruction, Vec<Step>)>)
    ensures
        r matches Some(p) ==> store.has_instruction(id) && p.0.id == id && (exists|k: int|
            0 <= k < store.instructions@.len() && (#[trigger] store.instructions@[k]) == p.0)
            && p.1@ == steps_linked(store.steps@, store.joins@, id),
        r is None ==> !store.has_instruction(id),
{
    match store.get_instruction(id) {
        Some(ins) => {
            let steps = store.steps_of_instruction(id);
            Some((ins, steps))
        },
        None => None,
    }
}

/// What one character becomes in an HTML text or attribute position.
pub open spec fn escape_char(c: char) -> Seq<char> {
    if c == '&' {
        "&amp;"@
    } else if c == '<' {
        "&lt;"@
    } else if c == '>' {
        "&gt;"@
    } else if c == '"' {
        "&quot;"@
    } else if c == '\'' {
        "&#39;"@
    } else {
        seq![c]
    }
}

/// The HTML escaping of a whole string.
pub open spec fn escape_spec(s: Seq<char>) -> Seq<char>
    decreases s.len(),
{
    if s.len() == 0 {
        Seq::empty()
    } else {
        escape_spec(s.drop_last()) + escape_char(s.last())
    }
}

/// Escapes the five HTML metacharacters of `s`.
pub fn html_escape(s: &str) -> (r: String)
    ensures
        r@ == escape_spec(s@),
{
    let n = s.unicode_len();
    let mut out = String::new();
    let mut i: usize = 0;
    proof {
        assert(s@.take(0) =~= Seq::<char>::empty());
    }
    while i < n
        invariant
            0 <= i <= n,
            n == s@.len(),
            out@ == escape_spec(s@.take(i as int)),
        decreases n - i,
    {
        proof {
            assert(s@.take(i as int + 1).drop_last() =~= s@.take(i as int));
            assert(s@.take(i as int + 1).last() == s@[i as int]);
        }
        let c = s.get_char(i);
        if c == '&' {
            out.append("&amp;");
        } else if c == '<' {
            out.append("&lt;");
        } else if c == '>' {
            out.append("&gt;");
        } else if c == '"' {
            out.append("&quot;");
        } else if c == '\'' {
            out.append("&#39;");
        } else {
            let piece = s.substring_char(i, i + 1);
            proof {
                assert(piece@ =~= seq![s@[i as int]]);
            }
            out.append(piece);
        }
        i += 1;
    }
    proof {
        assert(s@.take(n as int) =~= s@);
    }
    out
}

/// The image-gallery fragment for one step: nothing without an image,
/// else an `img` tag pointing at the persisted file, its name escaped.
pub open spec fn image_tag(st: Step) -> Seq<char> {
    match st.image_filename {
        Some(f) => "<img src=\"/img/"@ + escape_spec(f@) + "\">"@,
        None => Seq::empty(),
    }
}

/// The image-gallery fragments of a run of steps, in table order.
pub open spec fn images_html_spec(steps: Seq<Step>) -> Seq<char>
    decreases steps.len(),
{
    if steps.len() == 0 {
        Seq::empty()
    } else {
        images_html_spec(steps.drop_last()) + image_tag(steps.last())
    }
}

/// Renders every persisted image as an `img` tag, in step-table order —
/// the gallery page's body.
pub fn all_images(store: &Store) -> (r: String)
    ensures
        r@ == images_html_spec(store.steps@),
{
    let mut out = String::new();
    let mut k: usize = 0;
    proof {
        assert(store.steps@.take(0) =~= Seq::<Step>::empty());
    }
    while k < store.steps.len()
        invariant
            0 <= k <= store.steps@.len(),
            out@ == images_html_spec(store.steps@.take(k as int)),
        decreases store.steps@.len() - k,
    {
        proof {
            assert(store.steps@.take(k as int + 1).drop_last() =~= store.steps@.take(k as int));
            assert(store.steps@.take(k as int + 1).last() == store.steps@[k as int]);
        }
        match &store.steps[k].image_filename {
            Some(f) => {
                out.append("<img src=\"/img/");
                let escaped = html_escape(f.as_str());
                out.append(escaped.as_str());
                out.append("\">");
            },
            None => {},
        }
        k += 1;
    }
    proof {
        assert(store.steps@.take(store.steps@.len() as int) =~= store.steps@);
    }
    out
}

} // verus!
