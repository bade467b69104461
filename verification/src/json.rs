//! Trusted queries against a JSON page document, and the declaration of the
//! structured payload type that pages carry through verbatim.

use vstd::prelude::*;

verus! {

#[verifier::external_type_specification]
#[verifier::external_body]
pub struct ExValue(serde_json::Value);

/// The string value of a field of the document: `Some` exactly when the
/// document is well-formed JSON whose object carries the key with a string
/// value.
pub uninterp spec fn json_str_field_of(doc: Seq<char>, key: Seq<char>) -> Option<Seq<char>>;

/// Whether the document is well-formed JSON whose object carries the key.
pub uninterp spec fn json_field_present_of(doc: Seq<char>, key: Seq<char>) -> bool;

/// Relies on serde_json::from_str::<Value> with Value::get and Value::as_str:
/// reading one string field of a JSON document.
#[verifier::external_body]
pub(crate) fn json_str_field(doc: &str, key: &str) -> (r: Option<String>)
    ensures
        r is Some <==> json_str_field_of(doc@, key@) is Some,
        r is Some ==> r->0@ == json_str_field_of(doc@, key@)->0,
{
    let v: serde_json::Value = serde_json::from_str(doc).ok()?;
    Some(v.get(key)?.as_str()?.to_string())
}

/// Relies on serde_json::from_str::<Value> with Value::get: one field of a
/// JSON document taken whole, as the page's verbatim payload.
#[verifier::external_body]
pub(crate) fn json_value_field(doc: &str, key: &str) -> (r: Option<serde_json::Value>)
    ensures
        r is Some <==> json_field_present_of(doc@, key@),
{
    let v: serde_json::Value = serde_json::from_str(doc).ok()?;
    v.get(key).cloned()
}

} // verus!
