//! The multipart field demultiplexer: consume the named fields of a
//! multipart body, in order, and route each by its field name — the
//! instruction id through the integer parser, the title through the
//! UTF-8 decoder, the image into a byte buffer.  Unrecognized names are
//! silently ignored; a later field of the same name wins.  The framing
//! itself (boundaries, content dispositions) is the HTTP layer's work;
//! what arrives here is the ordered sequence of named, fully buffered
//! fields.

use vstd::prelude::*;
use crate::errors::UploadError;
use crate::parse::parse_i32;
use crate::parse::parse_i32_spec;

verus! {

/// One named field of a multipart body, its bytes fully buffered.
pub struct MultipartField {
    /// The field name from the content disposition.
    pub name: String,
    /// The field's bytes, all chunks accumulated.
    pub data: Vec<u8>,
}

/// The three recognized fields, each absent until its field arrives.
pub struct UploadFields {
    /// Parsed value of the `howToId` field.
    pub how_to_id: Option<i32>,
    /// Decoded value of the `title` field.
    pub title: Option<String>,
    /// Raw bytes of the `image` field.
    pub image: Option<Vec<u8>>,
}

/// Mathematical image of [`UploadFields`].
pub ghost struct FieldsModel {
    pub how_to_id: Option<i32>,
    pub title: Option<Seq<char>>,
    pub image: Option<Seq<u8>>,
}

impl View for UploadFields {
    type V = FieldsModel;

    open spec fn view(&self) -> FieldsModel {
        FieldsModel {
            how_to_id: self.how_to_id,
            title: match self.title {
                Some(t) => Some(t@),
                None => None,
            },
            image: match self.image {
                Some(b) => Some(b@),
                None => None,
            },
        }
    }
}

/// Whether every byte is ASCII.
pub open spec fn is_ascii_bytes(s: Seq<u8>) -> bool {
    forall|i: int| 0 <= i < s.len() ==> #[trigger] s[i] < 128
}

/// What `String::from_utf8_lossy` yields for these bytes: valid UTF-8
/// passes through unchanged, invalid sequences become replacement
/// characters.  Deterministic on the bytes alone.
pub uninterp spec fn lossy_utf8(bytes: Seq<u8>) -> Seq<char>;

/// Relies on `String::from_utf8_lossy`: deterministic on the bytes, and
/// bytes that are entirely ASCII decode to exactly those characters.
#[verifier::external_body]
fn decode_utf8_lossy(bytes: &Vec<u8>) -> (r: String)
    ensures
        r@ == lossy_utf8(bytes@),
        is_ascii_bytes(bytes@) ==> r@.len() == bytes@.len() && (forall|i: int|
            0 <= i < bytes@.len() ==> #[trigger] r@[i] == bytes@[i] as char),
{
    String::from_utf8_lossy(bytes.as_slice()).into_owned()
}

/// How one field changes the accumulated result: the recognized names
/// overwrite their slot, an unparsable id aborts, anything else is
/// ignored.
pub open spec fn apply_field(m: FieldsModel, name: Seq<char>, data: Seq<u8>) -> Result<
    FieldsModel,
    UploadError,
> {
    if name == "howToId"@ {
        match parse_i32_spec(lossy_utf8(data)) {
            Some(v) => Ok(FieldsModel { how_to_id: Some(v), ..m }),
            None => Err(UploadError::MalformedField),
        }
    } else if name == "title"@ {
        Ok(FieldsModel { title: Some(lossy_utf8(data)), ..m })
    } else if name == "image"@ {
        Ok(FieldsModel { image: Some(data), ..m })
    } else {
        Ok(m)
    }
}

/// The demultiplexer's result over a whole body: fields applied left to
/// right, stopping at the first malformed one.
pub open spec fn demux_spec(fields: Seq<MultipartField>) -> Result<FieldsModel, UploadError>
    decreases fields.len(),
{
    if fields.len() == 0 {
        Ok(FieldsModel { how_to_id: None, title: None, image: None })
    } else {
        match demux_spec(fields.drop_last()) {
            Ok(m) => apply_field(m, fields.last().name@, fields.last().data@),
            Err(e) => Err(e),
        }
    }
}

/// The only error the demultiplexer itself produces is a malformed
/// field: everything else it ignores or passes through.
pub proof fn lemma_demux_err_malformed(fields: Seq<MultipartField>)
    ensures
        demux_spec(fields) matches Err(e) ==> e == UploadError::MalformedField,
    decreases fields.len(),
{
    if fields.len() > 0 {
        lemma_demux_err_malformed(fields.drop_last());
    }
}

/// Once a prefix of the body has demultiplexed to an error, the whole
/// body does: later fields are never reached.
proof fn lemma_demux_err_prefix(fields: Seq<MultipartField>, k: int, e: UploadError)
    requires
        0 <= k <= fields.len(),
        demux_spec(fields.take(k)) == Err::<FieldsModel, UploadError>(e),
    ensures
        demux_spec(fields) == Err::<FieldsModel, UploadError>(e),
    decreases fields.len() - k,
{
    if k == fields.len() {
        assert(fields.take(k) =~= fields);
    } else {
        assert(fields.take(k + 1).drop_last() =~= fields.take(k));
        lemma_demux_err_prefix(fields, k + 1, e);
    }
}

/// Routes each field of the body by name: `howToId` is parsed as a
/// 32-bit integer (failing with `MalformedField` if it does not parse),
/// `title` is decoded as UTF-8 with lossy replacement, `image` is kept
/// as bytes; unrecognized fields are ignored and a later field of the
/// same name overwrites an earlier one.
pub fn demux_fields(fields: &Vec<MultipartField>) -> (r: Result<UploadFields, UploadError>)
    ensures
        r matches Ok(f) ==> demux_spec(fields@) == Ok::<FieldsModel, UploadError>(f@),
        r matches Err(e) ==> demux_spec(fields@) == Err::<FieldsModel, UploadError>(e),
{
    let mut out = UploadFields { how_to_id: None, title: None, image: None };
    let key_id = String::from_str("howToId");
    let key_title = String::from_str("title");
    let key_image = String::from_str("image");
    let mut i: usize = 0;
    proof {
        assert(fields@.subrange(0, 0) =~= Seq::<MultipartField>::empty());
    }
    while i < fields.len()
        invariant
            0 <= i <= fields@.len(),
            key_id@ == "howToId"@,
            key_title@ == "title"@,
            key_image@ == "image"@,
            demux_spec(fields@.subrange(0, i as int)) == Ok::<FieldsModel, UploadError>(out@),
        decreases fields@.len() - i,
    {
        proof {
            assert(fields@.subrange(0, i as int + 1).drop_last() =~= fields@.subrange(0, i as int));
            assert(fields@.subrange(0, i as int + 1).last() == fields@[i as int]);
        }
        let f = &fields[i];
        if f.name == key_id {
            let text = decode_utf8_lossy(&f.data);
            match parse_i32(text.as_str()) {
                Some(v) => {
                    out.how_to_id = Some(v);
                },
                None => {
                    proof {
                        assert(fields@.take(i as int + 1) =~= fields@.subrange(0, i as int + 1));
                        lemma_demux_err_prefix(fields@, i as int + 1, UploadError::MalformedField);
                    }
                    return Err(UploadError::MalformedField);
                },
            }
        } else if f.name == key_title {
            out.title = Some(decode_utf8_lossy(&f.data));
        } else if f.name == key_image {
            out.image = Some(vstd::slice::slice_to_vec(f.data.as_slice()));
        }
        i += 1;
    }
    proof {
        assert(fields@.subrange(0, fields@.len() as int) =~= fields@);
    }
    Ok(out)
}

} // verus!
