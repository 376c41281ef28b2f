//! Markup in texts: what two outside crates compute, under contract.

use vstd::prelude::*;

verus! {

/// The longest text, in characters, that is handed to `strip_tags`.
pub const MARKUP_LIMIT: usize = 0x7fff_ffff;

/// What `voca_rs::strip::strip_tags` returns for a text: the text without
/// its HTML tags, comments and declarations.
pub uninterp spec fn tags_stripped(text: Seq<char>) -> Seq<char>;

/// What `textwrap::dedent` returns for a text: the text without the white
/// space that all its lines begin with.
pub uninterp spec fn dedented(text: Seq<char>) -> Seq<char>;

/// Calls `voca_rs::strip::strip_tags`. That function counts nested `<` in a
/// 32-bit signed integer, one at most for each character, so a text within
/// `MARKUP_LIMIT` cannot overflow the count.
#[verifier::external_body]
pub(crate) fn strip_tags(text: &str) -> (r: String)
    requires
        text@.len() <= MARKUP_LIMIT,
    ensures
        r@ == tags_stripped(text@),
{
    voca_rs::strip::strip_tags(text)
}

/// Calls `textwrap::dedent`.
#[verifier::external_body]
pub(crate) fn dedent(text: &str) -> (r: String)
    ensures
        r@ == dedented(text@),
{
    textwrap::dedent(text)
}

} // verus!
