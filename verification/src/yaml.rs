//! Trusted queries against a YAML header.
//!
//! A header is decoded by serde_yaml. Each query here re-reads the document
//! and extracts one field, so its result is a function of the document text
//! and the key alone; that function is given a name, and the parsers'
//! contracts are stated over those names.

use vstd::prelude::*;

verus! {

/// The string value of a field of the document: `Some` exactly when the
/// document is well-formed YAML whose mapping carries the key with a
/// string value.
pub uninterp spec fn yaml_str_field_of(doc: Seq<char>, key: Seq<char>) -> Option<Seq<char>>;

/// The boolean value of a field, on the same terms.
pub uninterp spec fn yaml_bool_field_of(doc: Seq<char>, key: Seq<char>) -> Option<bool>;

/// Whether the document is well-formed YAML whose mapping carries the key
/// at all, whatever the value's shape.
pub uninterp spec fn yaml_field_present_of(doc: Seq<char>, key: Seq<char>) -> bool;

/// The length of a field's sequence value: `Some` exactly when the key is
/// present with a sequence value.
pub uninterp spec fn yaml_seq_len_of(doc: Seq<char>, key: Seq<char>) -> Option<int>;

/// The `i`-th element of a field's sequence value, when that element is a
/// string.
pub uninterp spec fn yaml_seq_str_of(doc: Seq<char>, key: Seq<char>, i: int) -> Option<Seq<char>>;

/// Relies on serde_yaml::from_str::<Value> with Value::get and Value::as_str:
/// reading one string field of a YAML document.
#[verifier::external_body]
pub(crate) fn yaml_str_field(doc: &str, key: &str) -> (r: Option<String>)
    ensures
        r is Some <==> yaml_str_field_of(doc@, key@) is Some,
        r is Some ==> r->0@ == yaml_str_field_of(doc@, key@)->0,
{
    let v: serde_yaml::Value = serde_yaml::from_str(doc).ok()?;
    Some(v.get(key)?.as_str()?.to_string())
}

/// Relies on serde_yaml::from_str::<Value> with Value::get and Value::as_bool:
/// reading one boolean field of a YAML document.
#[verifier::external_body]
pub(crate) fn yaml_bool_field(doc: &str, key: &str) -> (r: Option<bool>)
    ensures
        r == yaml_bool_field_of(doc@, key@),
{
    let v: serde_yaml::Value = serde_yaml::from_str(doc).ok()?;
    v.get(key)?.as_bool()
}

/// Relies on serde_yaml::from_str::<Value> with Value::get: whether a YAML
/// document carries a key.
#[verifier::external_body]
pub(crate) fn yaml_field_present(doc: &str, key: &str) -> (r: bool)
    ensures
        r == yaml_field_present_of(doc@, key@),
{
    match serde_yaml::from_str::<serde_yaml::Value>(doc) {
        Ok(v) => v.get(key).is_some(),
        Err(_) => false,
    }
}

/// Relies on serde_yaml::from_str::<Value> with Value::get and
/// Value::as_sequence: the length of one sequence field.
#[verifier::external_body]
pub(crate) fn yaml_seq_len(doc: &str, key: &str) -> (r: Option<usize>)
    ensures
        r is Some <==> yaml_seq_len_of(doc@, key@) is Some,
        r is Some ==> r->0 == yaml_seq_len_of(doc@, key@)->0,
{
    let v: serde_yaml::Value = serde_yaml::from_str(doc).ok()?;
    Some(v.get(key)?.as_sequence()?.len())
}

/// Relies on serde_yaml::from_str::<Value> with Value::get, Value::as_sequence
/// and Value::as_str: one string element of a sequence field.
#[verifier::external_body]
pub(crate) fn yaml_seq_str(doc: &str, key: &str, i: usize) -> (r: Option<String>)
    ensures
        r is Some <==> yaml_seq_str_of(doc@, key@, i as int) is Some,
        r is Some ==> r->0@ == yaml_seq_str_of(doc@, key@, i as int)->0,
{
    let v: serde_yaml::Value = serde_yaml::from_str(doc).ok()?;
    Some(v.get(key)?.as_sequence()?.get(i)?.as_str()?.to_string())
}

/// Relies on serde_yaml::from_str::<Value> with Value::get, and
/// serde_json::to_value: one field of a YAML document carried over verbatim
/// as a structured payload.
#[verifier::external_body]
pub(crate) fn yaml_json_field(doc: &str, key: &str) -> (r: Option<serde_json::Value>)
    ensures
        r is Some ==> yaml_field_present_of(doc@, key@),
{
    let v: serde_yaml::Value = serde_yaml::from_str(doc).ok()?;
    let w = v.get(key)?;
    serde_json::to_value(w).ok()
}

} // verus!
