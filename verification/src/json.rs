//! JSON documents and the text form of a list of entries.
//!
//! The documents themselves and their text form belong to `serde_json`; this
//! module declares them and names what the encoder and the decoder return.

use vstd::prelude::*;
use serde_json::Value;

verus! {

/// A JSON document of `serde_json`, carried through as an opaque value.
#[verifier::external_type_specification]
#[verifier::external_body]
pub struct ExValue(serde_json::Value);

/// The error of `serde_json`, opaque.
#[verifier::external_type_specification]
#[verifier::external_body]
pub struct ExJsonError(serde_json::Error);

/// The entries of a list with each key taken by its view.
pub open spec fn entry_views(entries: Seq<(String, Value)>) -> Seq<(Seq<char>, Value)> {
    Seq::new(entries.len(), |i: int| (entries[i].0@, entries[i].1))
}

/// The text that `serde_json::to_string` gives for a list of entries, or
/// `None` where it reports an error.
pub uninterp spec fn document_of(entries: Seq<(Seq<char>, Value)>) -> Option<Seq<char>>;

/// The list of entries that `serde_json::from_str` reads from a text, or
/// `None` where it reports an error.
pub uninterp spec fn entries_of(text: Seq<char>) -> Option<Seq<(Seq<char>, Value)>>;

/// What `Value::is_null` answers for a document.
pub uninterp spec fn is_null(value: Value) -> bool;

/// Calls `serde_json::to_string` on the list. Trusted: the call succeeds
/// exactly where `document_of` is `Some`, and then returns that text.
#[verifier::external_body]
pub(crate) fn to_document(entries: &Vec<(String, Value)>) -> (r: Result<String, serde_json::Error>)
    ensures
        r is Ok <==> document_of(entry_views(entries@)) is Some,
        r matches Ok(text) ==> document_of(entry_views(entries@)) == Some(text@),
{
    serde_json::to_string(entries)
}

/// Calls `serde_json::from_str` for a list of key and document pairs.
/// Trusted: the call succeeds exactly where `entries_of` is `Some`, and then
/// returns that list.
#[verifier::external_body]
pub(crate) fn from_document(text: &str) -> (r: Result<Vec<(String, Value)>, serde_json::Error>)
    ensures
        r is Ok <==> entries_of(text@) is Some,
        r matches Ok(entries) ==> entries_of(text@) == Some(entry_views(entries@)),
{
    serde_json::from_str(text)
}

/// Calls `Value::clone`. Trusted: the copy equals the document.
#[verifier::external_body]
pub(crate) fn clone_value(value: &Value) -> (r: Value)
    ensures
        r == *value,
{
    value.clone()
}

/// Builds `Value::Null`. Trusted: it is the document of which
/// `Value::is_null` answers yes.
#[verifier::external_body]
pub(crate) fn null_value() -> (r: Value)
    ensures
        is_null(r),
{
    Value::Null
}

} // verus!
