//! Trimming and length validation of titles.
//!
//! The validator checks the character count of an already-trimmed string
//! against inclusive bounds; `trim` removes leading and trailing white
//! space the way `str::trim` does.

use vstd::prelude::*;
use crate::errors::ValidationError;
use crate::TITLE_MAX;
use crate::TITLE_MIN;

verus! {

/// The Unicode white-space characters, the set `str::trim` strips.
pub open spec fn is_space_char(c: char) -> bool {
    c == ' ' || c == '\t' || c == '\n' || c == '\u{000B}' || c == '\u{000C}' || c == '\r'
        || c == '\u{0085}' || c == '\u{00A0}' || c == '\u{1680}' || (0x2000 <= c as u32 && c as u32
        <= 0x200A) || c == '\u{2028}' || c == '\u{2029}' || c == '\u{202F}' || c == '\u{205F}' || c
        == '\u{3000}'
}

/// Runtime test for [`is_space_char`].
pub fn is_space(c: char) -> (r: bool)
    ensures
        r == is_space_char(c),
{
    let u = c as u32;
    c == ' ' || c == '\t' || c == '\n' || c == '\u{000B}' || c == '\u{000C}' || c == '\r'
        || c == '\u{0085}' || c == '\u{00A0}' || c == '\u{1680}' || (0x2000 <= u && u <= 0x200A)
        || c == '\u{2028}' || c == '\u{2029}' || c == '\u{202F}' || c == '\u{205F}' || c
        == '\u{3000}'
}

/// `s` with leading white space removed.
pub open spec fn trim_front_spec(s: Seq<char>) -> Seq<char>
    decreases s.len(),
{
    if s.len() > 0 && is_space_char(s[0]) {
        trim_front_spec(s.drop_first())
    } else {
        s
    }
}

/// `s` with trailing white space removed.
pub open spec fn trim_back_spec(s: Seq<char>) -> Seq<char>
    decreases s.len(),
{
    if s.len() > 0 && is_space_char(s[s.len() - 1]) {
        trim_back_spec(s.drop_last())
    } else {
        s
    }
}

/// `s` with leading and trailing white space removed.
pub open spec fn trim_spec(s: Seq<char>) -> Seq<char> {
    trim_back_spec(trim_front_spec(s))
}

/// Removes leading and trailing white space, as `str::trim` would.
pub fn trim(s: &str) -> (r: &str)
    ensures
        r@ == trim_spec(s@),
{
    let n = s.unicode_len();
    let mut i: usize = 0;
    proof {
        assert(s@.skip(0) =~= s@);
    }
    while i < n && is_space(s.get_char(i))
        invariant
            n == s@.len(),
            0 <= i <= n,
            trim_front_spec(s@) == trim_front_spec(s@.skip(i as int)),
        decreases n - i,
    {
        proof {
            assert(s@.skip(i as int).drop_first() =~= s@.skip(i as int + 1));
        }
        i += 1;
    }
    proof {
        if i == n {
            assert(s@.skip(i as int) =~= Seq::<char>::empty());
        }
        assert(trim_front_spec(s@) == s@.skip(i as int));
    }
    let mut j: usize = n;
    proof {
        assert(s@.subrange(i as int, n as int) =~= s@.skip(i as int));
    }
    while j > i && is_space(s.get_char(j - 1))
        invariant
            n == s@.len(),
            i <= j <= n,
            trim_front_spec(s@) == s@.skip(i as int),
            trim_back_spec(s@.skip(i as int)) == trim_back_spec(s@.subrange(i as int, j as int)),
        decreases j,
    {
        proof {
            assert(s@.subrange(i as int, j as int).drop_last() =~= s@.subrange(
                i as int,
                j as int - 1,
            ));
        }
        j -= 1;
    }
    proof {
        if j == i {
            assert(s@.subrange(i as int, j as int) =~= Seq::<char>::empty());
        }
        assert(trim_spec(s@) == s@.subrange(i as int, j as int));
    }
    s.substring_char(i, j)
}

/// What length validation returns for a string of `s.len()` characters
/// under inclusive bounds `min ..= max`.
pub open spec fn validate_len_spec(max: nat, min: nat, s: Seq<char>) -> Result<(), ValidationError> {
    if s.len() > max {
        Err(ValidationError::TooLong)
    } else if s.len() < min {
        Err(ValidationError::TooShort)
    } else {
        Ok(())
    }
}

/// Checks the character count of `input` against the inclusive bounds:
/// more than `max` characters fail with `TooLong`, fewer than `min` with
/// `TooShort`.  Callers are responsible for trimming first.
pub fn validate_length(max: usize, min: usize, input: &str) -> (r: Result<(), ValidationError>)
    ensures
        r == validate_len_spec(max as nat, min as nat, input@),
{
    let len = input.unicode_len();
    if len > max {
        Err(ValidationError::TooLong)
    } else if len < min {
        Err(ValidationError::TooShort)
    } else {
        Ok(())
    }
}

/// Trims a title and validates the result against the standard bounds,
/// returning the trimmed title on success.
pub fn validate_title(title: &str) -> (r: Result<String, ValidationError>)
    ensures
        r is Ok <==> TITLE_MIN <= trim_spec(title@).len() <= TITLE_MAX,
        r is Ok ==> r->Ok_0@ == trim_spec(title@),
        trim_spec(title@).len() > TITLE_MAX ==> r == Err::<String, ValidationError>(
            ValidationError::TooLong,
        ),
        trim_spec(title@).len() < TITLE_MIN ==> r == Err::<String, ValidationError>(
            ValidationError::TooShort,
        ),
{
    let t = trim(title);
    match validate_length(TITLE_MAX, TITLE_MIN, t) {
        Ok(_) => Ok(t.to_owned()),
        Err(e) => Err(e),
    }
}

/// Validating the trimmed form of any string with the standard bounds
/// succeeds exactly when the trimmed form has between one and eighty
/// characters.
pub proof fn lemma_validate_trimmed_length(s: Seq<char>)
    ensures
        validate_len_spec(TITLE_MAX as nat, TITLE_MIN as nat, trim_spec(s)) is Ok <==> 1
            <= trim_spec(s).len() <= 80,
{
}

} // verus!
