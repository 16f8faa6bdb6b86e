//! Text operations that the standard library performs for this crate.

use vstd::prelude::*;

verus! {

/// What the standard `Debug` formatting of a string yields: the string between
/// double quotes, with the characters that cannot stand in a literal escaped.
pub uninterp spec fn debug_quoted(text: Seq<char>) -> Seq<char>;

/// `format!("{:#?}", text)`: the result is the `Debug` rendering of `text`,
/// which depends on the characters of `text` alone.
#[verifier::external_body]
pub(crate) fn debug_quote(text: &str) -> (quoted: String)
    ensures
        quoted@ == debug_quoted(text@),
{
    format!("{:#?}", text)
}

} // verus!
