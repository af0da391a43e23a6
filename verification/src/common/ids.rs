//! The ids under which objects are kept: twelve bytes, written as twenty-four
//! hexadecimal digits.

use vstd::prelude::*;

verus! {

/// The id that `bson` reads from the text, written as it writes ids, or `None`
/// where it reads none.
pub uninterp spec fn object_id_of(text: Seq<char>) -> Option<Seq<char>>;

/// The text of an optional id.
pub open spec fn id_text(id: Option<String>) -> Option<Seq<char>> {
    match id {
        Some(id) => Some(id@),
        None => None,
    }
}

/// `bson::oid::ObjectId::parse_str` and, on the id it reads, `to_hex`: the
/// result is named `object_id_of`, a function of the text.
#[verifier::external_body]
pub(crate) fn object_id(text: &str) -> (id: Option<String>)
    ensures
        id_text(id) == object_id_of(text@),
{
    match bson::oid::ObjectId::parse_str(text) {
        Ok(id) => Some(id.to_hex()),
        Err(_) => None,
    }
}

} // verus!
