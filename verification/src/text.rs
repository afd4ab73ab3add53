use vstd::prelude::*;

verus! {

/// `needle` occurs in `text` as a run of consecutive characters.
pub open spec fn has_substring(text: Seq<char>, needle: Seq<char>) -> bool {
    exists|i: int|
        0 <= i && i + needle.len() <= text.len() && #[trigger] text.subrange(i, i + needle.len())
            == needle
}

/// Appends one character to a string.
///
/// Trusted: `String::push`, which std documents as appending the given
/// `char` to the end of the string.
#[verifier::external_body]
pub(crate) fn push_char(s: &mut String, c: char)
    ensures
        final(s)@ == old(s)@.push(c),
{
    s.push(c)
}

/// Whether `needle` occurs in `text`.
///
/// Trusted: `str::contains` with a `&str` pattern, which std documents as
/// returning true exactly when the pattern matches a sub-slice of the string.
#[verifier::external_body]
pub(crate) fn contains_str(text: &str, needle: &str) -> (res: bool)
    ensures
        res == has_substring(text@, needle@),
{
    text.contains(needle)
}

} // verus!
