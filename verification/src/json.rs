//! The boundary to serde_json. The document tree a body parses to is held as
//! an opaque `serde_json::Value`; what the library's logic reads of it — the
//! member under a top-level key, and the character content of a string value —
//! is named by uninterpreted spec functions, and each call into serde_json is
//! a trusted wrapper whose contract speaks over those names.

use vstd::prelude::*;

verus! {

#[verifier::external_type_specification]
#[verifier::external_body]
pub struct ExValue(serde_json::Value);

/// The document that a string denotes when it is well-formed JSON, and
/// `None` when it is not. `serde_json::from_str` computes this from the
/// characters alone.
pub uninterp spec fn json_doc(s: Seq<char>) -> Option<serde_json::Value>;

/// The member of a JSON object under the given key, and `None` when the
/// value is not an object or has no such member. `serde_json::Value::get`
/// computes this from the value and the key alone.
pub uninterp spec fn json_field(v: serde_json::Value, key: Seq<char>) -> Option<serde_json::Value>;

/// The character content of a JSON string value, and `None` for a value of
/// any other kind. `serde_json::Value::as_str` computes this from the value
/// alone.
pub uninterp spec fn json_str(v: serde_json::Value) -> Option<Seq<char>>;

/// Relies on `serde_json::from_str`: `Ok` exactly on well-formed JSON text,
/// returning the document it denotes; the parse error is carried as its
/// display text.
#[verifier::external_body]
pub fn parse_json(s: &str) -> (r: Result<serde_json::Value, String>)
    ensures
        r matches Ok(v) ==> json_doc(s@) == Some(v),
        r is Err ==> json_doc(s@) is None,
{
    serde_json::from_str::<serde_json::Value>(s).map_err(|e| e.to_string())
}

/// Relies on `serde_json::Value::get` with a string index: `Some` exactly
/// when the value is an object holding the key, returning the member.
#[verifier::external_body]
pub fn get_field<'a>(v: &'a serde_json::Value, key: &str) -> (r: Option<&'a serde_json::Value>)
    ensures
        r matches Some(f) ==> json_field(*v, key@) == Some(*f),
        r is None ==> json_field(*v, key@) is None,
{
    v.get(key)
}

/// Relies on `serde_json::Value::as_str`: `Some` exactly when the value is a
/// JSON string, returning its content; the borrowed slice is made owned.
#[verifier::external_body]
pub fn value_as_string(v: &serde_json::Value) -> (r: Option<String>)
    ensures
        r matches Some(s) ==> json_str(*v) == Some(s@),
        r is None ==> json_str(*v) is None,
{
    v.as_str().map(|s| s.to_string())
}

} // verus!
