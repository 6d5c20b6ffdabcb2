//! JSON documents, read through `serde_json`.

use vstd::prelude::*;

verus! {

/// `serde_json::Value`, a parsed JSON document. Opaque: its members are
/// read through the wrappers below.
#[verifier::external_type_specification]
#[verifier::external_body]
pub struct ExJsonValue(serde_json::Value);

/// The members of a JSON object whose values are strings, by key. A value
/// that is no object has none.
pub uninterp spec fn text_members(v: serde_json::Value) -> Map<Seq<char>, Seq<char>>;

/// The members of a JSON object whose values are integers from 0 to
/// `u64::MAX`, by key. A value that is no object has none.
pub uninterp spec fn count_members(v: serde_json::Value) -> Map<Seq<char>, u64>;

/// The keys under which a JSON value has nothing: the member is null or
/// missing, or the value is no object.
pub uninterp spec fn blank_members(v: serde_json::Value) -> Set<Seq<char>>;

/// What the library reads of a JSON value: its string members, its
/// members that are counts, and the keys under which it has nothing.
pub struct Members {
    pub texts: Map<Seq<char>, Seq<char>>,
    pub counts: Map<Seq<char>, u64>,
    pub blanks: Set<Seq<char>>,
}

/// The members of a JSON value.
pub open spec fn members_of(v: serde_json::Value) -> Members {
    Members { texts: text_members(v), counts: count_members(v), blanks: blank_members(v) }
}

/// The members of an optional JSON value.
pub open spec fn members_view(doc: Option<serde_json::Value>) -> Option<Members> {
    match doc {
        Some(v) => Some(members_of(v)),
        None => None,
    }
}

/// The members of the value that `serde_json::from_str` reads from a text;
/// `None` where it reports an error.
pub uninterp spec fn parsed_members(text: Seq<char>) -> Option<Members>;

/// Calls `serde_json::from_str` for a `Value`; `None` where it reports an
/// error. The contract only names what the value holds.
#[verifier::external_body]
pub(crate) fn parse_document(text: &str) -> (doc: Option<serde_json::Value>)
    ensures
        members_view(doc) == parsed_members(text@),
{
    match serde_json::from_str::<serde_json::Value>(text) {
        Ok(v) => Some(v),
        Err(_) => None,
    }
}

/// Indexes a value by a key and compares what is there with a text
/// (`Value`'s `Index<&str>` and `PartialEq<&str>`). Indexing gives null for a
/// missing key and for a value that is no object, and only a string equals a
/// text: so the result is true exactly when the member is a string with
/// these characters.
#[verifier::external_body]
pub(crate) fn member_is_text(v: &serde_json::Value, key: &str, expected: &str) -> (same: bool)
    ensures
        same == (text_members(*v).contains_key(key@) && text_members(*v)[key@] == expected@),
{
    v[key] == expected
}

/// Indexes a value by a key and reads what is there with `Value::as_u64`,
/// which gives a number only for a non-negative integer that fits.
#[verifier::external_body]
pub(crate) fn member_count(v: &serde_json::Value, key: &str) -> (n: Option<u64>)
    ensures
        n == (if count_members(*v).contains_key(key@) {
            Some(count_members(*v)[key@])
        } else {
            None
        }),
{
    v[key].as_u64()
}

/// Indexes a value by a key and reads what is there with `Value::as_str`,
/// which gives a text only for a string.
#[verifier::external_body]
pub(crate) fn member_text(v: &serde_json::Value, key: &str) -> (text: Option<String>)
    ensures
        match text {
            Some(t) => text_members(*v).contains_key(key@) && text_members(*v)[key@] == t@,
            None => !text_members(*v).contains_key(key@),
        },
{
    match v[key].as_str() {
        Some(t) => Some(t.to_owned()),
        None => None,
    }
}

/// Indexes a value by a key and asks `Value::is_null` of what is there.
/// Indexing gives null for a missing key and for a value that is no object.
#[verifier::external_body]
pub(crate) fn member_is_blank(v: &serde_json::Value, key: &str) -> (blank: bool)
    ensures
        blank == blank_members(*v).contains(key@),
{
    v[key].is_null()
}

} // verus!
