//! The YAML values this library reads and writes, and the serde_yaml calls it makes.
use vstd::prelude::*;

verus! {

#[verifier::external_type_specification]
#[verifier::external_body]
pub struct ExValue(serde_yaml::Value);

#[verifier::external_type_specification]
#[verifier::external_body]
pub struct ExYamlError(serde_yaml::Error);

/// The value that a text parses to as one YAML document, or `None` where it does not parse.
pub uninterp spec fn yaml_of(doc: Seq<char>) -> Option<serde_yaml::Value>;

/// The entries of a mapping value, in order; `None` for a value of another kind.
pub uninterp spec fn entries_of(v: serde_yaml::Value) -> Option<Seq<(serde_yaml::Value, serde_yaml::Value)>>;

/// The text of a string value; `None` for a value of another kind.
pub uninterp spec fn str_of(v: serde_yaml::Value) -> Option<Seq<char>>;

/// The number held by a non-negative integer value that fits a `u64`.
pub uninterp spec fn u64_of(v: serde_yaml::Value) -> Option<nat>;

/// Whether a value is null.
pub uninterp spec fn null_of(v: serde_yaml::Value) -> bool;

/// The string value holding a text.
pub uninterp spec fn string_value_of(s: Seq<char>) -> serde_yaml::Value;

/// The YAML text of a mapping holding `entries` in order, or `None` where it cannot be written.
pub uninterp spec fn yaml_text_of(entries: Seq<(serde_yaml::Value, serde_yaml::Value)>) -> Option<Seq<char>>;

/// Relies on serde_yaml::from_str: parses the text as one YAML document.
#[verifier::external_body]
pub(crate) fn parse_yaml(doc: &str) -> (r: Result<serde_yaml::Value, serde_yaml::Error>)
    ensures
        match r {
            Ok(v) => yaml_of(doc@) == Some(v),
            Err(_) => yaml_of(doc@) is None,
        },
{
    serde_yaml::from_str(doc)
}

/// Relies on serde_yaml::Value::as_mapping and Mapping::iter: the entries of a
/// mapping, in their order, or `None` for a value of another kind.
#[verifier::external_body]
pub(crate) fn mapping_entries(v: &serde_yaml::Value) -> (r: Option<Vec<(serde_yaml::Value, serde_yaml::Value)>>)
    ensures
        match r {
            Some(es) => entries_of(*v) == Some(es@),
            None => entries_of(*v) is None,
        },
{
    v.as_mapping().map(|m| m.iter().map(|(k, x)| (k.clone(), x.clone())).collect())
}

/// Relies on serde_yaml::Value::as_str: the text of a string value.
#[verifier::external_body]
pub(crate) fn value_text(v: &serde_yaml::Value) -> (r: Option<String>)
    ensures
        match r {
            Some(s) => str_of(*v) == Some(s@),
            None => str_of(*v) is None,
        },
{
    v.as_str().map(|s| s.to_owned())
}

/// Relies on serde_yaml::Value::as_u64: a non-negative integer value that fits a `u64`.
#[verifier::external_body]
pub(crate) fn value_u64(v: &serde_yaml::Value) -> (r: Option<u64>)
    ensures
        match r {
            Some(n) => u64_of(*v) == Some(n as nat),
            None => u64_of(*v) is None,
        },
{
    v.as_u64()
}

/// Relies on serde_yaml::Value::is_null.
#[verifier::external_body]
pub(crate) fn value_is_null(v: &serde_yaml::Value) -> (r: bool)
    ensures
        r == null_of(*v),
{
    v.is_null()
}

/// Relies on serde_yaml::Value::String, whose `as_str` gives the text back.
#[verifier::external_body]
pub(crate) fn string_value(s: &str) -> (r: serde_yaml::Value)
    ensures
        r == string_value_of(s@),
        str_of(r) == Some(s@),
{
    serde_yaml::Value::String(s.to_owned())
}

/// Relies on the derived `Clone` of serde_yaml::Value: the copy equals the original.
#[verifier::external_body]
pub(crate) fn clone_value(v: &serde_yaml::Value) -> (r: serde_yaml::Value)
    ensures
        r == *v,
{
    v.clone()
}

/// Relies on collecting into serde_yaml::Mapping and serde_yaml::to_string: the text of
/// a mapping holding `entries` in order.
#[verifier::external_body]
pub(crate) fn encode_mapping(entries: Vec<(serde_yaml::Value, serde_yaml::Value)>) -> (r: Result<String, serde_yaml::Error>)
    ensures
        match r {
            Ok(s) => yaml_text_of(entries@) == Some(s@),
            Err(_) => yaml_text_of(entries@) is None,
        },
{
    let m: serde_yaml::Mapping = entries.into_iter().collect();
    serde_yaml::to_string(&serde_yaml::Value::Mapping(m))
}

} // verus!
