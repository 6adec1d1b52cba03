//! Operations of the standard library on text that the program calls.
use vstd::prelude::*;

verus! {

/// The mathematical value of a list of texts.
pub open spec fn texts_view(texts: Seq<String>) -> Seq<Seq<char>> {
    texts.map_values(|text: String| text@)
}

/// What `str::trim` returns for a text: the text without the white space at
/// its two ends.
pub uninterp spec fn trimmed(text: Seq<char>) -> Seq<char>;

/// What `str::to_lowercase` returns for a text: its lowercase equivalent.
pub uninterp spec fn lowercased(text: Seq<char>) -> Seq<char>;

/// A text without the run of one character at its end.
pub open spec fn without_trailing(text: Seq<char>, end: char) -> Seq<char>
    decreases text.len(),
{
    if text.len() > 0 && text.last() == end {
        without_trailing(text.drop_last(), end)
    } else {
        text
    }
}

/// `str::trim`. The result is named, not spelled out.
#[verifier::external_body]
pub(crate) fn trim(text: &str) -> (inner: &str)
    ensures
        inner@ == trimmed(text@),
{
    text.trim()
}

/// `str::to_lowercase`. The result is named, not spelled out.
#[verifier::external_body]
pub(crate) fn lowercase(text: &str) -> (lower: String)
    ensures
        lower@ == lowercased(text@),
{
    text.to_lowercase()
}

/// `str::trim_end_matches` with a character for its pattern: every match at
/// the end is removed, one after the other.
#[verifier::external_body]
pub(crate) fn trim_end_matches(text: &str, end: char) -> (inner: &str)
    ensures
        inner@ == without_trailing(text@, end),
{
    text.trim_end_matches(end)
}

} // verus!
