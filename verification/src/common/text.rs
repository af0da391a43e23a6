//! Numbers as text.

use vstd::prelude::*;

verus! {

/// The text in an optional string.
pub open spec fn text_of(text: Option<String>) -> Option<Seq<char>> {
    match text {
        Some(text) => Some(text@),
        None => None,
    }
}

/// A copy of an optional string.
pub fn copy_of(text: &Option<String>) -> (copy: Option<String>)
    ensures
        copy == *text,
{
    match text {
        Some(text) => Some(text.clone()),
        None => None,
    }
}

/// The decimal digits of a number, as the standard library writes them.
pub uninterp spec fn digits_of(n: int) -> Seq<char>;

/// `format!` with `{}` on a `u128`: the result is named `digits_of`, a function
/// of the number.
#[verifier::external_body]
pub(crate) fn number_text(n: u128) -> (text: String)
    ensures
        text@ == digits_of(n as int),
{
    format!("{}", n)
}

} // verus!
