//! Identifiers: UUIDs kept as their 128-bit value, read and written through
//! the `uuid` crate.

use vstd::prelude::*;

verus! {

/// The identifier that `uuid::Uuid::parse_str` reads from a text, as a 128-bit
/// value; `None` where it reports an error.
pub uninterp spec fn uuid_parsed(text: Seq<char>) -> Option<u128>;

/// The text that `uuid::Uuid` displays for a 128-bit value: lower-case
/// hexadecimal digits in five hyphenated groups.
pub uninterp spec fn uuid_text(id: u128) -> Seq<char>;

/// Calls `uuid::Uuid::parse_str` and hands back the value of the identifier it
/// read (`Uuid::as_u128`). The contract only names that result.
#[verifier::external_body]
pub(crate) fn parse_uuid(text: &str) -> (id: Option<u128>)
    ensures
        id == uuid_parsed(text@),
{
    match uuid::Uuid::parse_str(text) {
        Ok(u) => Some(u.as_u128()),
        Err(_) => None,
    }
}

/// Writes an identifier as `uuid::Uuid` displays it (`Uuid::from_u128`, then
/// its `Display`). The contract only names that text.
#[verifier::external_body]
pub(crate) fn uuid_to_text(id: u128) -> (text: String)
    ensures
        text@ == uuid_text(id),
{
    uuid::Uuid::from_u128(id).to_string()
}

/// Draws a random identifier with `uuid::Uuid::new_v4`. Nothing is claimed of
/// the value.
#[verifier::external_body]
pub(crate) fn random_uuid() -> (id: u128) {
    uuid::Uuid::new_v4().as_u128()
}

/// Reads a user or route identifier from its text form.
pub fn parse_id(text: &str) -> (id: Option<u128>)
    ensures
        id == uuid_parsed(text@),
{
    parse_uuid(text)
}

/// The text form of an identifier.
pub fn id_text(id: u128) -> (text: String)
    ensures
        text@ == uuid_text(id),
{
    uuid_to_text(id)
}

} // verus!
