//! Small services on strings that the rest of the library shares.

use vstd::prelude::*;
use vstd::string::StringExecFns;

verus! {

/// The upper-case form of a text, as Rust's standard library computes it from
/// the Unicode character tables.
pub uninterp spec fn uppercase_of(text: Seq<char>) -> Seq<char>;

/// The upper-case form of `text`.
///
/// Trusted: the body calls `str::to_uppercase` of the standard library, which
/// returns the upper-case equivalent of the whole string as a new `String`. The
/// result depends on the characters of `text` alone, and the contract gives it
/// the name `uppercase_of` without saying more about it.
#[verifier::external_body]
pub(crate) fn to_uppercase(text: &str) -> (upper: String)
    ensures
        upper@ == uppercase_of(text@),
{
    text.to_uppercase()
}

/// Whether two texts hold the same characters.
pub fn same_text(a: &str, b: &str) -> (same: bool)
    ensures
        same == (a@ == b@),
{
    let left = String::from_str(a);
    let right = String::from_str(b);
    left == right
}

/// The view of a text that may be absent.
pub open spec fn text_of(text: Option<String>) -> Option<Seq<char>> {
    match text {
        Some(t) => Some(t@),
        None => None,
    }
}

/// A copy of a text that may be absent.
pub fn copy_of(text: &Option<String>) -> (copy: Option<String>)
    ensures
        copy == *text,
{
    match text {
        Some(t) => Some(t.clone()),
        None => None,
    }
}

} // verus!
