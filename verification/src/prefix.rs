//! Building the accumulated filename prefix, one directory name at a time.

use vstd::prelude::*;

use crate::text::lower_of;
use crate::text::to_lower;

verus! {

/// The separator placed between two prefix segments.
pub open spec fn sep() -> Seq<char> {
    seq![' ', '-', ' ']
}

/// Removes a single leading `'+'` or `'-'` from a directory name, if present.
pub open spec fn strip_sign(tail: Seq<char>) -> Seq<char> {
    if tail.len() > 0 && (tail[0] == '+' || tail[0] == '-') {
        tail.subrange(1, tail.len() as int)
    } else {
        tail
    }
}

/// What `new_prefix` returns: the sign-stripped tail joined onto the old
/// prefix, the whole join lower-cased in one step; an empty old prefix
/// contributes no separator.
pub open spec fn spec_new_prefix(old_prefix: Seq<char>, tail: Seq<char>) -> Seq<char> {
    if old_prefix.len() == 0 {
        lower_of(strip_sign(tail))
    } else {
        lower_of(old_prefix + sep() + strip_sign(tail))
    }
}

/// Creates the filename prefix for the children of a directory named `tail`,
/// reached with the accumulated prefix `old_prefix`.
pub fn new_prefix(old_prefix: &str, tail: &str) -> (r: String)
    requires
        tail@.len() > 0,
    ensures
        r@ == spec_new_prefix(old_prefix@, tail@),
{
    let c = tail.get_char(0);
    let postfix: &str = if c == '+' || c == '-' {
        tail.substring_char(1, tail.unicode_len())
    } else {
        tail
    };
    if old_prefix.is_empty() {
        to_lower(postfix)
    } else {
        let mut joined = String::from_str(old_prefix);
        joined.append(" - ");
        joined.append(postfix);
        proof {
            reveal_strlit(" - ");
            assert(" - "@ =~= sep());
        }
        to_lower(joined.as_str())
    }
}

/// With an empty old prefix, the new prefix is just the sign-stripped,
/// lower-cased tail: no separator appears.
pub proof fn lemma_new_prefix_empty(tail: Seq<char>)
    ensures
        spec_new_prefix(Seq::empty(), tail) == lower_of(strip_sign(tail)),
{
}

/// A single leading `'-'` or `'+'` on the tail is stripped: either sign, or
/// no sign at all, spells the same prefix.
pub proof fn lemma_new_prefix_sign(old_prefix: Seq<char>, tail: Seq<char>)
    requires
        tail.len() > 0 ==> (tail[0] != '+' && tail[0] != '-'),
    ensures
        spec_new_prefix(old_prefix, seq!['-'] + tail) == spec_new_prefix(old_prefix, tail),
        spec_new_prefix(old_prefix, seq!['+'] + tail) == spec_new_prefix(old_prefix, tail),
{
    let minus = seq!['-'] + tail;
    let plus = seq!['+'] + tail;
    assert(minus.subrange(1, minus.len() as int) =~= tail);
    assert(plus.subrange(1, plus.len() as int) =~= tail);
}

} // verus!
