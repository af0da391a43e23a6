//! What `validator` says of a text.

use vstd::prelude::*;

verus! {

/// Whether `validator` takes the text for an e-mail address.
pub uninterp spec fn is_email(text: Seq<char>) -> bool;

/// Whether a text of `length` characters meets the bounds: `equal` alone where
/// it is given, else `min` and `max` as far as they are given.
pub open spec fn length_allowed(
    length: nat,
    min: Option<u64>,
    max: Option<u64>,
    equal: Option<u64>,
) -> bool {
    match equal {
        Some(exact) => length == exact,
        None => {
            &&& (min matches Some(least) ==> length >= least)
            &&& (max matches Some(most) ==> length <= most)
        },
    }
}

/// `validator::validate_email`: the result is named `is_email`, a function of
/// the text.
#[verifier::external_body]
pub(crate) fn validate_email(text: &str) -> (r: bool)
    ensures
        r == is_email(text@),
{
    validator::validate_email(text)
}

/// `validator::validate_length` on a string slice: it counts the characters and
/// holds the count against `equal` alone where that is given, else against
/// `min` and `max`.
#[verifier::external_body]
pub(crate) fn validate_length(
    text: &str,
    min: Option<u64>,
    max: Option<u64>,
    equal: Option<u64>,
) -> (r: bool)
    ensures
        r == length_allowed(text@.len(), min, max, equal),
{
    validator::validate_length(text, min, max, equal)
}

/// `validator::validate_length` on a vector: it holds the number of items
/// against `equal` alone where that is given, else against `min` and `max`.
#[verifier::external_body]
pub(crate) fn validate_count<T>(
    items: &Vec<T>,
    min: Option<u64>,
    max: Option<u64>,
    equal: Option<u64>,
) -> (r: bool)
    ensures
        r == length_allowed(items@.len(), min, max, equal),
{
    validator::validate_length(items, min, max, equal)
}

} // verus!
