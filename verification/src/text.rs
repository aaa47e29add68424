//! Text: the character sequences of strings, and the text operations of the
//! standard library that the pipeline relies on.
//!
//! None of the executable functions of this module is proved: each states
//! what the standard library's function does.
use vstd::prelude::*;

verus! {

/// The character sequences of a list of strings.
pub open spec fn texts(strings: Seq<String>) -> Seq<Seq<char>> {
    Seq::new(strings.len(), |i: int| strings[i]@)
}

/// The character sequences of a list of optional strings.
pub open spec fn optional_texts(strings: Seq<Option<String>>) -> Seq<Option<Seq<char>>> {
    Seq::new(
        strings.len(),
        |i: int|
            match strings[i] {
                Some(s) => Some(s@),
                None => None,
            },
    )
}

/// `text` with every occurrence of the character `from` replaced by `to`.
pub open spec fn with_char_replaced(text: Seq<char>, from: char, to: Seq<char>) -> Seq<char>
    decreases text.len(),
{
    if text.len() == 0 {
        text
    } else {
        with_char_replaced(text.drop_last(), from, to) + (if text.last() == from {
            to
        } else {
            seq![text.last()]
        })
    }
}

/// What `str::trim_end` leaves of `text`: the text without its trailing
/// white space, as Unicode defines white space.
pub uninterp spec fn without_trailing_space(text: Seq<char>) -> Seq<char>;

/// `str`'s `==`: two string slices are equal exactly when they hold the same
/// characters.
#[verifier::external_body]
pub(crate) fn same_text(a: &str, b: &str) -> (same: bool)
    ensures
        same == (a@ == b@),
{
    a == b
}

/// `str::replace` for a single character: every occurrence of `from` in
/// `text` is replaced by `to`, and the rest is kept.
#[verifier::external_body]
pub(crate) fn replace_char(text: &str, from: char, to: &str) -> (replaced: String)
    ensures
        replaced@ == with_char_replaced(text@, from, to@),
{
    text.replace(from, to)
}

/// `str::trim_end`: `text` without its trailing white space, as a string of
/// its own.
#[verifier::external_body]
pub(crate) fn trim_line_end(text: &str) -> (trimmed: String)
    ensures
        trimmed@ == without_trailing_space(text@),
{
    text.trim_end().to_string()
}

} // verus!
