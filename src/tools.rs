//! The operations exposed to an assistant, one group per resource. Each
//! operation is split into the request it sends, built here, and the
//! sending, done by the caller. Removals also produce the confirmation
//! record that the caller renders.
use crate::commands::{is_flag_field, is_number_field, is_text_field, Field, FieldValue};
use vstd::prelude::*;

pub mod asset;
pub mod asset_group;
pub mod edge_app;
pub mod label;
pub mod playlist;
pub mod playlist_item;
pub mod screen;
pub mod shared_playlist;

verus! {

/// Message of an update that names no field to change.
pub const NO_FIELDS_MESSAGE: &'static str = "No fields to update";

pub const STATUS_KEY: &'static str = "status";

pub const ID_KEY: &'static str = "id";

/// What a member of a request body is expected to hold.
pub enum Expected {
    Text(Seq<char>),
    Flag(bool),
    Number(u64),
    Json(serde_json::Value),
}

/// Whether `f` is the member `name` holding what `e` expects.
pub open spec fn field_is(f: Field, name: Seq<char>, e: Expected) -> bool {
    &&& f.name@ == name
    &&& match e {
        Expected::Text(t) => f.value matches FieldValue::Text(s) && s@ == t,
        Expected::Flag(b) => f.value == FieldValue::Flag(b),
        Expected::Number(n) => f.value == FieldValue::Number(n),
        Expected::Json(v) => f.value == FieldValue::Json(v),
    }
}

/// Whether `fields` are, in order, the members that `expected` describes.
pub open spec fn fields_are(fields: Seq<Field>, expected: Seq<(Seq<char>, Expected)>) -> bool {
    &&& fields.len() == expected.len()
    &&& forall|i: int|
        0 <= i < expected.len() ==> field_is(#[trigger] fields[i], expected[i].0, expected[i].1)
}

/// `s`, followed by the member `name` when `e` is given.
pub open spec fn and_maybe(
    s: Seq<(Seq<char>, Expected)>,
    name: Seq<char>,
    e: Option<Expected>,
) -> Seq<(Seq<char>, Expected)> {
    match e {
        Some(x) => s.push((name, x)),
        None => s,
    }
}

/// The text member expected from an optional text.
pub open spec fn text_of(o: Option<String>) -> Option<Expected> {
    match o {
        Some(t) => Some(Expected::Text(t@)),
        None => None,
    }
}

/// The boolean member expected from an optional flag.
pub open spec fn flag_of(o: Option<bool>) -> Option<Expected> {
    match o {
        Some(b) => Some(Expected::Flag(b)),
        None => None,
    }
}

/// The numeric member expected from an optional number.
pub open spec fn number_of(o: Option<u64>) -> Option<Expected> {
    match o {
        Some(n) => Some(Expected::Number(n)),
        None => None,
    }
}

/// Appends the numeric member `name: value`, when a value is given.
pub(crate) fn push_number(fields: &mut Vec<Field>, name: &str, value: Option<u64>, Ghost(
    expected,
): Ghost<Seq<(Seq<char>, Expected)>>)
    requires
        fields_are(old(fields)@, expected),
    ensures
        fields_are(final(fields)@, and_maybe(expected, name@, number_of(value))),
{
    if let Some(v) = value {
        fields.push(number_field(name, v));
    }
}

/// Appends the text member `name: value`, when a value is given.
pub(crate) fn push_text(fields: &mut Vec<Field>, name: &str, value: Option<String>, Ghost(
    expected,
): Ghost<Seq<(Seq<char>, Expected)>>)
    requires
        fields_are(old(fields)@, expected),
    ensures
        fields_are(final(fields)@, and_maybe(expected, name@, text_of(value))),
{
    if let Some(v) = value {
        fields.push(text_field(name, v.as_str()));
    }
}

/// Appends the boolean member `name: value`, when a value is given.
pub(crate) fn push_flag(fields: &mut Vec<Field>, name: &str, value: Option<bool>, Ghost(
    expected,
): Ghost<Seq<(Seq<char>, Expected)>>)
    requires
        fields_are(old(fields)@, expected),
    ensures
        fields_are(final(fields)@, and_maybe(expected, name@, flag_of(value))),
{
    if let Some(v) = value {
        fields.push(flag_field(name, v));
    }
}

/// The text member `name: value`.
pub fn text_field(name: &str, value: &str) -> (r: Field)
    ensures
        is_text_field(r, name@, value@),
{
    Field { name: name.to_owned(), value: FieldValue::Text(value.to_owned()) }
}

/// The boolean member `name: value`.
pub fn flag_field(name: &str, value: bool) -> (r: Field)
    ensures
        is_flag_field(r, name@, value),
{
    Field { name: name.to_owned(), value: FieldValue::Flag(value) }
}

/// The numeric member `name: value`.
pub fn number_field(name: &str, value: u64) -> (r: Field)
    ensures
        is_number_field(r, name@, value),
{
    Field { name: name.to_owned(), value: FieldValue::Number(value) }
}

/// `prefix` followed by `id`: an endpoint that filters on one identifier.
pub fn with_id(prefix: &str, id: &str) -> (r: String)
    ensures
        r@ == prefix@ + id@,
{
    let mut r = prefix.to_owned();
    r.append(id);
    r
}

/// `prefix`, `first`, `infix`, `second` and `suffix`, in order: an endpoint
/// that filters on two identifiers.
pub fn with_two_ids(prefix: &str, first: &str, infix: &str, second: &str, suffix: &str) -> (r:
    String)
    ensures
        r@ == prefix@ + first@ + infix@ + second@ + suffix@,
{
    let mut r = prefix.to_owned();
    r.append(first);
    r.append(infix);
    r.append(second);
    r.append(suffix);
    r
}

/// The confirmation `{status, key: id}` of an operation on one record.
pub fn receipt(status: &str, key: &str, id: &str) -> (r: Vec<Field>)
    ensures
        r@.len() == 2,
        is_text_field(r@[0], STATUS_KEY@, status@),
        is_text_field(r@[1], key@, id@),
{
    vec![text_field(STATUS_KEY, status), text_field(key, id)]
}

/// The confirmation `{status, first_key: first, second_key: second}` of an
/// operation on a link between two records.
pub fn link_receipt(
    status: &str,
    first_key: &str,
    first: &str,
    second_key: &str,
    second: &str,
) -> (r: Vec<Field>)
    ensures
        r@.len() == 3,
        is_text_field(r@[0], STATUS_KEY@, status@),
        is_text_field(r@[1], first_key@, first@),
        is_text_field(r@[2], second_key@, second@),
{
    vec![
        text_field(STATUS_KEY, status),
        text_field(first_key, first),
        text_field(second_key, second),
    ]
}

} // verus!
