//! Collision-resistant file names for persisted images: a random 128-bit
//! identifier rendered as 32 lowercase hexadecimal digits, plus an
//! extension.  No uniqueness check against existing files is performed or
//! required; the birthday bound on a 128-bit space carries the guarantee.

use vstd::prelude::*;

verus! {

/// A lowercase hexadecimal digit.
pub open spec fn is_hex_digit_char(c: char) -> bool {
    (48 <= c as u32 && c as u32 <= 57) || (97 <= c as u32 && c as u32 <= 102)
}

/// Relies on `uuid::Uuid::new_v4` and its simple formatting: a fresh
/// random identifier rendered as exactly 32 lowercase hexadecimal
/// digits.  Which digits come back is random; nothing more is assumed.
#[verifier::external_body]
fn fresh_hex_id() -> (r: String)
    ensures
        r@.len() == 32,
        forall|i: int| 0 <= i < 32 ==> is_hex_digit_char(#[trigger] r@[i]),
{
    uuid::Uuid::new_v4().as_simple().to_string()
}

/// Produces a fresh file name `<32 hex digits>.<extension>`.
pub fn new_name(extension: &str) -> (r: String)
    ensures
        r@.len() == 33 + extension@.len(),
        r@ == r@.subrange(0, 32) + "."@ + extension@,
        forall|i: int| 0 <= i < 32 ==> is_hex_digit_char(#[trigger] r@[i]),
{
    let mut name = fresh_hex_id();
    name.append(".");
    name.append(extension);
    proof {
        reveal_strlit(".");
        assert(name@.subrange(0, 32) =~= name@.subrange(0, 32));
        assert(name@ =~= name@.subrange(0, 32) + "."@ + extension@);
    }
    name
}

} // verus!
