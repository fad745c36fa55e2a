//! Lower-casing of names, and reading their first character.

use vstd::prelude::*;

verus! {

/// What `str::to_lowercase` returns: the Unicode lower-case form of a
/// sequence of characters. Only the standard library pins its value; the
/// library's contracts speak of it by this name.
pub uninterp spec fn lower_of(s: Seq<char>) -> Seq<char>;

/// Relies on `str::to_lowercase`: the result depends on the characters
/// alone; the empty string stays empty; and, since every character maps to
/// one or more lower-case characters, the result is never shorter than the
/// input.
#[verifier::external_body]
pub(crate) fn to_lower(s: &str) -> (r: String)
    ensures
        r@ == lower_of(s@),
        s@.len() == 0 ==> r@.len() == 0,
        r@.len() >= s@.len(),
{
    s.to_lowercase()
}

/// Returns the first character of a name.
pub fn leading_char(name: &str) -> (c: char)
    requires
        name@.len() > 0,
    ensures
        c == name@[0],
{
    name.get_char(0)
}

} // verus!
