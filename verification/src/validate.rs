//! Field validation shared by the two services: names and titles must be
//! non-empty after trimming and at most 200 characters; descriptions are
//! optional and at most 1000 characters. Stored names are kept in trimmed
//! form.

use vstd::prelude::*;
use vstd::string::StrSliceExecFns;

verus! {

pub const MAX_NAME_CHARS: usize = 200;

pub const MAX_DESCRIPTION_CHARS: usize = 1000;

/// The characters of `s` without leading and trailing whitespace, as
/// `str::trim` computes them.
pub uninterp spec fn trimmed(s: Seq<char>) -> Seq<char>;

/// Relies on str::trim: the input without leading and trailing whitespace —
/// a subslice of the input, determined by the input's characters alone, so
/// never longer than the input.
#[verifier::external_body]
pub(crate) fn trim_to_string(s: &str) -> (r: String)
    ensures
        r@ == trimmed(s@),
        r@.len() <= s@.len(),
{
    s.trim().to_owned()
}

/// Whether a name or title is acceptable: non-empty once trimmed, and at
/// most `MAX_NAME_CHARS` characters as given.
pub open spec fn valid_name(s: Seq<char>) -> bool {
    trimmed(s).len() > 0 && s.len() <= MAX_NAME_CHARS
}

/// Whether an optional description is acceptable: absent, or at most
/// `MAX_DESCRIPTION_CHARS` characters.
pub open spec fn valid_description(d: Option<Seq<char>>) -> bool {
    d matches Some(s) ==> s.len() <= MAX_DESCRIPTION_CHARS
}

/// The view of an optional string: its characters, if present.
pub open spec fn opt_view(d: Option<String>) -> Option<Seq<char>> {
    match d {
        Some(s) => Some(s@),
        None => None,
    }
}

/// Whether an optional description is acceptable.
pub fn check_description(d: &Option<String>) -> (r: bool)
    ensures
        r == valid_description(opt_view(*d)),
{
    match d {
        Some(s) => s.as_str().unicode_len() <= MAX_DESCRIPTION_CHARS,
        None => true,
    }
}

} // verus!
