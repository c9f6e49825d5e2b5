//! Text operations of the standard library that the library relies on, each
//! behind a trusted wrapper whose result is given a name.
use vstd::prelude::*;

verus! {

/// What `str::to_lowercase` returns for a text: its Unicode lowercase
/// mapping. Most characters map on their own; a few (the Greek capital
/// sigma) depend on their neighbours, so this is a function of the whole text.
pub uninterp spec fn lowercase(s: Seq<char>) -> Seq<char>;

/// Whether every character of a text is ASCII.
pub open spec fn ascii_text(s: Seq<char>) -> bool {
    forall|i: int| 0 <= i < s.len() ==> (#[trigger] s[i] as u32) < 128
}

/// A character with `A` to `Z` mapped to `a` to `z`.
pub open spec fn ascii_lower_char(c: char) -> char {
    if 'A' <= c && c <= 'Z' {
        ((c as u32) + 32) as char
    } else {
        c
    }
}

/// A text with each ASCII capital letter mapped to its small letter.
pub open spec fn ascii_lowercase(s: Seq<char>) -> Seq<char> {
    s.map_values(|c: char| ascii_lower_char(c))
}

/// Calls `str::to_lowercase`. The contract claims that the result is the
/// lowercase mapping named by `lowercase`, and that on ASCII text it maps
/// each capital letter to its small letter and keeps every other character
/// (Unicode's lowercase mapping of the ASCII range).
#[verifier::external_body]
pub(crate) fn to_lowercase(s: &str) -> (r: String)
    ensures
        r@ == lowercase(s@),
        ascii_text(s@) ==> r@ == ascii_lowercase(s@),
{
    s.to_lowercase()
}

/// What the `Debug` formatting of a string slice produces for given
/// characters: the characters, escaped, between double quotes.
pub uninterp spec fn debug_quoted(s: Seq<char>) -> Seq<char>;

/// Formats a string slice with `{:?}`. The contract claims only that the
/// result is the `Debug` rendering of the argument's characters, as named by
/// `debug_quoted`.
#[verifier::external_body]
pub(crate) fn debug_str(s: &str) -> (r: String)
    ensures
        r@ == debug_quoted(s@),
{
    format!("{:?}", s)
}

} // verus!
