//! The boundary to the YAML parser. The front-matter block of a note is
//! YAML; reading it is `serde_yaml`'s work, and this module holds the
//! trusted declarations through which the verified parser sees that work:
//! an opaque document value, names for what it holds, and thin wrappers
//! around the calls.

use vstd::prelude::*;

verus! {

#[verifier::external_type_specification]
#[verifier::external_body]
pub struct ExValue(serde_yaml::Value);

/// The document that the YAML parser yields for the text `s`, or `None`
/// where the text is not valid YAML. Parsing is a function of the text
/// alone.
pub uninterp spec fn yaml_doc_of(s: Seq<char>) -> Option<serde_yaml::Value>;

/// The entry of the document `doc` at the string key `key`: `None` where
/// `doc` is not a mapping or has no such key.
pub uninterp spec fn yaml_entry_of(doc: serde_yaml::Value, key: Seq<char>) -> Option<
    serde_yaml::Value,
>;

/// The characters of the value `v`, where `v` is a YAML string; `None`
/// otherwise.
pub uninterp spec fn yaml_str_of(v: serde_yaml::Value) -> Option<Seq<char>>;

/// The boolean that the value `v` holds, where `v` is a YAML boolean;
/// `None` otherwise.
pub uninterp spec fn yaml_bool_of(v: serde_yaml::Value) -> Option<bool>;

/// Whether the value `v` is the YAML null.
pub uninterp spec fn yaml_is_null(v: serde_yaml::Value) -> bool;

/// Whether the value `v` is a YAML mapping.
pub uninterp spec fn yaml_is_mapping(v: serde_yaml::Value) -> bool;

/// The elements of the value `v`, where `v` is a YAML sequence; `None`
/// otherwise.
pub uninterp spec fn yaml_seq_of(v: serde_yaml::Value) -> Option<Seq<serde_yaml::Value>>;

/// Relies on `serde_yaml::from_str::<serde_yaml::Value>`: the document a
/// YAML text denotes, or an error for text that is not YAML.
#[verifier::external_body]
pub(crate) fn parse_yaml_document(s: &str) -> (r: Option<serde_yaml::Value>)
    ensures
        r == yaml_doc_of(s@),
{
    serde_yaml::from_str::<serde_yaml::Value>(s).ok()
}

/// Relies on `serde_yaml::Value::get` with a string index: the entry of a
/// mapping at that key, `None` on any other document or a missing key. The
/// entry is handed out cloned, an equal value.
#[verifier::external_body]
pub(crate) fn get_entry(doc: &serde_yaml::Value, key: &str) -> (r: Option<serde_yaml::Value>)
    ensures
        r == yaml_entry_of(*doc, key@),
{
    doc.get(key).cloned()
}

/// Relies on `serde_yaml::Value::as_str`: the characters of a YAML string,
/// `None` on every other kind of value.
#[verifier::external_body]
pub(crate) fn value_as_str(v: &serde_yaml::Value) -> (r: Option<String>)
    ensures
        r is Some <==> yaml_str_of(*v) is Some,
        r matches Some(s) ==> yaml_str_of(*v) == Some(s@),
{
    v.as_str().map(|s| s.to_string())
}

/// Relies on `serde_yaml::Value::as_bool`: the boolean a YAML boolean
/// holds, `None` on every other kind of value.
#[verifier::external_body]
pub(crate) fn value_as_bool(v: &serde_yaml::Value) -> (r: Option<bool>)
    ensures
        r == yaml_bool_of(*v),
{
    v.as_bool()
}

/// Relies on `serde_yaml::Value::is_null`: whether the value is the YAML
/// null.
#[verifier::external_body]
pub(crate) fn value_is_null(v: &serde_yaml::Value) -> (r: bool)
    ensures
        r == yaml_is_null(*v),
{
    v.is_null()
}

/// Relies on `serde_yaml::Value::is_mapping`: whether the value is a YAML
/// mapping.
#[verifier::external_body]
pub(crate) fn value_is_mapping(v: &serde_yaml::Value) -> (r: bool)
    ensures
        r == yaml_is_mapping(*v),
{
    v.is_mapping()
}

/// Relies on `serde_yaml::Value::as_sequence`: the elements of a YAML
/// sequence, cloned, `None` on every other kind of value.
#[verifier::external_body]
pub(crate) fn value_as_sequence(v: &serde_yaml::Value) -> (r: Option<Vec<serde_yaml::Value>>)
    ensures
        r is Some <==> yaml_seq_of(*v) is Some,
        r matches Some(vs) ==> yaml_seq_of(*v) == Some(vs@),
{
    v.as_sequence().cloned()
}

} // verus!
