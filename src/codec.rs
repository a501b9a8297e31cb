//! The JSON and YAML codecs this library relies on, and what it assumes of
//! them.
use vstd::prelude::*;

verus! {

#[verifier::external_type_specification]
#[verifier::external_body]
pub struct ExJsonValue(serde_json::Value);

#[verifier::external_type_specification]
#[verifier::external_body]
#[verifier::reject_recursive_types(K)]
#[verifier::reject_recursive_types(V)]
pub struct ExJsonMap<K, V>(serde_json::Map<K, V>);

#[verifier::external_type_specification]
#[verifier::external_body]
pub struct ExJsonError(serde_json::Error);

#[verifier::external_type_specification]
#[verifier::external_body]
pub struct ExYamlError(serde_yaml::Error);

/// The JSON value that `text` holds; `None` when it is not a JSON document.
/// Depends on the text alone.
pub uninterp spec fn json_value_of(text: Seq<char>) -> Option<serde_json::Value>;

/// Relies on `serde_json::from_str::<serde_json::Value>`: the value that a
/// JSON document holds, or an error for any other text.
#[verifier::external_body]
pub fn parse_json(text: &str) -> (r: Result<serde_json::Value, serde_json::Error>)
    ensures
        match r {
            Ok(v) => json_value_of(text@) == Some(v),
            Err(_) => json_value_of(text@) is None,
        },
{
    serde_json::from_str(text)
}

/// The indented JSON text of `v`; `None` when it cannot be rendered.
/// Depends on the value alone.
pub uninterp spec fn pretty_text_of(v: serde_json::Value) -> Option<Seq<char>>;

/// Relies on `serde_json::to_string_pretty`, which renders a value as
/// indented JSON text.
#[verifier::external_body]
pub fn pretty_json(v: &serde_json::Value) -> (r: Result<String, serde_json::Error>)
    ensures
        match r {
            Ok(s) => pretty_text_of(*v) == Some(s@),
            Err(_) => pretty_text_of(*v) is None,
        },
{
    serde_json::to_string_pretty(v)
}

/// The elements of `v` when it is an array.
pub uninterp spec fn json_array_of(v: serde_json::Value) -> Option<Seq<serde_json::Value>>;

/// Relies on `serde_json::Value::as_array`: the elements of an array, and
/// nothing for any other value.
pub assume_specification[ serde_json::Value::as_array ](v: &serde_json::Value) -> (r: Option<
    &Vec<serde_json::Value>,
>)
    ensures
        match r {
            Some(a) => json_array_of(*v) == Some(a@),
            None => json_array_of(*v) is None,
        },
;

/// The members of `v` when it is an object.
pub uninterp spec fn json_object_of(v: serde_json::Value) -> Option<
    serde_json::Map<String, serde_json::Value>,
>;

/// Relies on `serde_json::Value::as_object`: the members of an object, and
/// nothing for any other value.
pub assume_specification[ serde_json::Value::as_object ](v: &serde_json::Value) -> (r: Option<
    &serde_json::Map<String, serde_json::Value>,
>)
    ensures
        match r {
            Some(m) => json_object_of(*v) == Some(*m),
            None => json_object_of(*v) is None,
        },
;

/// The member of `m` under `key`.
pub uninterp spec fn json_member_of(
    m: serde_json::Map<String, serde_json::Value>,
    key: Seq<char>,
) -> Option<serde_json::Value>;

/// Relies on `serde_json::Map::get`: the member under a key, if any.
#[verifier::external_body]
pub fn json_member<'a>(m: &'a serde_json::Map<String, serde_json::Value>, key: &str) -> (r: Option<
    &'a serde_json::Value,
>)
    ensures
        match r {
            Some(v) => json_member_of(*m, key@) == Some(*v),
            None => json_member_of(*m, key@) is None,
        },
{
    m.get(key)
}

/// The number that `v` holds, when it is one that fits in `u64`.
pub uninterp spec fn json_u64_of(v: serde_json::Value) -> Option<u64>;

/// Relies on `serde_json::Value::as_u64`: a number that fits in `u64`, and
/// nothing for any other value.
pub assume_specification[ serde_json::Value::as_u64 ](v: &serde_json::Value) -> (r: Option<u64>)
    ensures
        r == json_u64_of(*v),
;

/// Relies on the derived `Clone` of `serde_json::Value`, which copies the
/// value whole.
pub assume_specification[ <serde_json::Value as Clone>::clone ](v: &serde_json::Value) -> (r:
    serde_json::Value)
    ensures
        r == *v,
;

/// A sequence of string pairs, seen as pairs of character sequences.
pub open spec fn entries_view(entries: Seq<(String, String)>) -> Seq<(Seq<char>, Seq<char>)> {
    entries.map_values(|p: (String, String)| (p.0@, p.1@))
}

/// The entries of the YAML mapping of strings to strings that `text`
/// holds, in key order; `None` when it holds none. Depends on the text alone.
pub uninterp spec fn yaml_string_map(text: Seq<char>) -> Option<Seq<(Seq<char>, Seq<char>)>>;

/// Relies on `serde_yaml::from_str::<BTreeMap<String, String>>`: the
/// mapping of strings to strings that a YAML text holds, or an error.
#[verifier::external_body]
pub fn parse_yaml_entries(text: &str) -> (r: Result<Vec<(String, String)>, serde_yaml::Error>)
    ensures
        match r {
            Ok(v) => yaml_string_map(text@) == Some(entries_view(v@)),
            Err(_) => yaml_string_map(text@) is None,
        },
{
    serde_yaml::from_str::<std::collections::BTreeMap<String, String>>(text).map(
        |m| m.into_iter().collect(),
    )
}

/// The YAML text of a mapping that holds `entries` in order; `None` when it
/// cannot be rendered. Depends on the entries alone.
pub uninterp spec fn yaml_text(entries: Seq<(Seq<char>, Seq<char>)>) -> Option<Seq<char>>;

/// Relies on `serde_yaml::to_string` of a `serde_yaml::Mapping` of strings,
/// which keeps the entries in the order given.
#[verifier::external_body]
pub fn render_yaml_entries(entries: &Vec<(String, String)>) -> (r: Result<String, serde_yaml::Error>)
    ensures
        match r {
            Ok(s) => yaml_text(entries_view(entries@)) == Some(s@),
            Err(_) => yaml_text(entries_view(entries@)) is None,
        },
{
    let m: serde_yaml::Mapping = entries.iter().map(
        |(k, v)| (serde_yaml::Value::String(k.clone()), serde_yaml::Value::String(v.clone())),
    ).collect();
    serde_yaml::to_string(&m)
}

/// The records of the JSON array of string-to-string objects that `text`
/// holds, each in key order; `None` when it holds none. Depends on the text
/// alone.
pub uninterp spec fn json_string_records(text: Seq<char>) -> Option<
    Seq<Seq<(Seq<char>, Seq<char>)>>,
>;

/// The records of a sequence of entry lists, each seen as pairs of
/// character sequences.
pub open spec fn records_view(records: Seq<Vec<(String, String)>>) -> Seq<
    Seq<(Seq<char>, Seq<char>)>,
> {
    records.map_values(|r: Vec<(String, String)>| entries_view(r@))
}

/// Relies on `serde_json::from_str::<Vec<BTreeMap<String, String>>>`: the
/// array of string-to-string objects that a JSON text holds, or an error.
#[verifier::external_body]
pub fn parse_json_records(text: &str) -> (r: Result<Vec<Vec<(String, String)>>, serde_json::Error>)
    ensures
        match r {
            Ok(v) => json_string_records(text@) == Some(records_view(v@)),
            Err(_) => json_string_records(text@) is None,
        },
{
    serde_json::from_str::<Vec<std::collections::BTreeMap<String, String>>>(text).map(
        |v| v.into_iter().map(|m| m.into_iter().collect()).collect(),
    )
}

} // verus!
