//! Comparing strings and taking a prefix off one.

use vstd::prelude::*;

verus! {

/// Whether `text` begins with `prefix`.
pub open spec fn starts_with(text: Seq<char>, prefix: Seq<char>) -> bool {
    prefix.len() <= text.len() && text.subrange(0, prefix.len() as int) == prefix
}

/// What is left of `text` once `prefix` is taken from its front, where it
/// stands there.
pub open spec fn without_prefix(text: Seq<char>, prefix: Seq<char>) -> Option<Seq<char>> {
    if starts_with(text, prefix) {
        Some(text.subrange(prefix.len() as int, text.len() as int))
    } else {
        None
    }
}

/// Whether two strings hold the same characters.
pub fn same_text(a: &str, b: &str) -> (r: bool)
    ensures
        r == (a@ == b@),
{
    let left = a.to_owned();
    let right = b.to_owned();
    left == right
}

/// Takes `prefix` from the front of `text`. Returns the rest, or nothing
/// where `text` does not begin with `prefix`.
pub fn strip_prefix(text: &str, prefix: &str) -> (r: Option<String>)
    ensures
        r is Some == starts_with(text@, prefix@),
        r matches Some(rest) ==> Some(rest@) == without_prefix(text@, prefix@),
{
    let text_len = text.unicode_len();
    let prefix_len = prefix.unicode_len();
    if text_len < prefix_len {
        return None;
    }
    let head = text.substring_char(0, prefix_len);
    if !same_text(head, prefix) {
        return None;
    }
    let rest = text.substring_char(prefix_len, text_len);
    Some(rest.to_owned())
}

} // verus!
