//! Text comparisons that the standard library performs.
use vstd::prelude::*;

verus! {

/// `needle` occurs in `text` as a contiguous piece.
pub open spec fn contains_text(text: Seq<char>, needle: Seq<char>) -> bool {
    exists|i: int| 0 <= i && i + needle.len() <= text.len() && #[trigger] text.subrange(i, i + needle.len()) == needle
}

/// What `str::to_lowercase` makes of a text (Unicode lower-case mapping).
pub uninterp spec fn lowercase_text(text: Seq<char>) -> Seq<char>;

/// Calls `<str as PartialEq>::eq`: the two texts are equal.
#[verifier::external_body]
pub(crate) fn str_equal(a: &str, b: &str) -> (r: bool)
    ensures
        r == (a@ == b@),
{
    a == b
}

/// Calls `str::contains` with a text pattern: `needle` occurs in `text`.
#[verifier::external_body]
pub(crate) fn str_contains(text: &str, needle: &str) -> (r: bool)
    ensures
        r == contains_text(text@, needle@),
{
    text.contains(needle)
}

/// Calls `str::to_lowercase`; the text is named by `lowercase_text`.
#[verifier::external_body]
pub(crate) fn to_lowercase(text: &str) -> (r: String)
    ensures
        r@ == lowercase_text(text@),
{
    text.to_lowercase()
}

} // verus!
