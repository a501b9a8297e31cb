//! The generic resource primitives that every resource operation is built
//! on: fetch (GET), create (POST), update (PATCH) and remove (DELETE). Each
//! is split into the request it sends and the interpretation of the answer,
//! so that the decision "did this request succeed" is a function of the
//! status code alone.
use crate::authentication::{Authentication, AuthenticationError};
use crate::codec::{json_array_of, json_value_of, parse_json, pretty_json, pretty_text_of};
use vstd::prelude::*;

pub mod edge_app;

verus! {

pub const STATUS_OK: u16 = 200;

pub const STATUS_CREATED: u16 = 201;

pub const STATUS_NO_CONTENT: u16 = 204;

/// How a command prints its result.
pub enum OutputType {
    HumanReadable,
    Json,
}

/// A result that can be printed in either output type.
pub trait Formatter {
    fn format(&self, output_type: OutputType) -> String;
}

/// Why a command failed.
#[derive(Debug)]
pub enum CommandError {
    /// The credential could not be resolved or attached.
    Authentication(AuthenticationError),
    /// The request never reached the backend, or never completed.
    Request(reqwest::Error),
    /// A body was not the JSON expected.
    Parse(serde_json::Error),
    /// A manifest was not the YAML expected.
    YamlParse(serde_yaml::Error),
    /// The backend answered with a status other than the one expected.
    WrongResponseStatus(u16),
    /// A field required in a response is missing.
    MissingField,
    /// A local file could not be read or written.
    Io(std::io::Error),
    /// A header value holds bytes that HTTP does not allow.
    InvalidHeaderValue(reqwest::header::InvalidHeaderValue),
    /// A manifest field that must not be empty is; or, with its fixed
    /// message, a manifest that already carries an id.
    InvalidManifestValue(String),
    /// A manifest lacks a required field.
    MissingManifestField(String),
    /// A manifest holds a field outside its schema.
    UnknownManifestField(String),
    /// A publish answer did not hold exactly one record.
    UnexpectedRecordCount(usize),
}

/// The HTTP method of a request.
#[derive(Clone, Copy, Debug, PartialEq, Eq, Structural)]
pub enum Verb {
    Get,
    Post,
    Patch,
    Delete,
}

/// The value of one member of a JSON object that a request carries.
#[derive(Debug, PartialEq)]
pub enum FieldValue {
    Text(String),
    Flag(bool),
    Number(u64),
    Json(serde_json::Value),
}

/// One member of a JSON object that a request carries.
#[derive(Debug, PartialEq)]
pub struct Field {
    pub name: String,
    pub value: FieldValue,
}

/// The JSON body of a request: one object, or an array of objects.
#[derive(Debug, PartialEq)]
pub enum Payload {
    Record(Vec<Field>),
    Records(Vec<Vec<Field>>),
}

/// A request, ready to be sent by a client whose default headers carry the
/// credential.
#[derive(Debug, PartialEq)]
pub struct ResourceRequest {
    pub verb: Verb,
    pub url: String,
    /// Whether the request asks the backend to echo the record it wrote
    /// (`Prefer: return=representation`).
    pub prefer_representation: bool,
    pub payload: Option<Payload>,
}

/// Whether `f` is the text member `name: value`.
pub open spec fn is_text_field(f: Field, name: Seq<char>, value: Seq<char>) -> bool {
    &&& f.name@ == name
    &&& f.value matches FieldValue::Text(t) && t@ == value
}

/// Whether `fields` carries the pairs `p` as text members, in order.
pub open spec fn text_record(fields: Seq<Field>, p: Seq<(Seq<char>, Seq<char>)>) -> bool {
    &&& fields.len() == p.len()
    &&& forall|i: int| 0 <= i < p.len() ==> is_text_field(#[trigger] fields[i], p[i].0, p[i].1)
}

/// Whether `f` is the boolean member `name: value`.
pub open spec fn is_flag_field(f: Field, name: Seq<char>, value: bool) -> bool {
    f.name@ == name && f.value == FieldValue::Flag(value)
}

/// Whether `f` is the numeric member `name: value`.
pub open spec fn is_number_field(f: Field, name: Seq<char>, value: u64) -> bool {
    f.name@ == name && f.value == FieldValue::Number(value)
}

/// The absolute URL of `endpoint`, relative to `base`.
pub open spec fn resource_url_of(base: Seq<char>, endpoint: Seq<char>) -> Seq<char> {
    base + "/"@ + endpoint
}

/// Whether `status` is a success for a request of the given verb: `200` for
/// fetch and update, `201` for create, `200` or `204` for remove.
pub open spec fn accepted(verb: Verb, status: u16) -> bool {
    match verb {
        Verb::Get => status == STATUS_OK,
        Verb::Post => status == STATUS_CREATED,
        Verb::Patch => status == STATUS_OK,
        Verb::Delete => status == STATUS_OK || status == STATUS_NO_CONTENT,
    }
}

/// Whether `r` is the status error that carries `status`.
pub open spec fn is_status_error<T>(r: Result<T, CommandError>, status: u16) -> bool {
    r matches Err(CommandError::WrongResponseStatus(code)) && code == status
}

/// Whether `req` is a request of the given shape.
pub open spec fn request_is(
    req: ResourceRequest,
    verb: Verb,
    url: Seq<char>,
    prefer_representation: bool,
) -> bool {
    &&& req.verb == verb
    &&& req.url@ == url
    &&& req.prefer_representation == prefer_representation
}

/// The absolute URL of `endpoint`, relative to `base`.
pub fn resource_url(base: &str, endpoint: &str) -> (r: String)
    ensures
        r@ == resource_url_of(base@, endpoint@),
{
    let mut r = base.to_owned();
    r.append("/");
    r.append(endpoint);
    r
}

/// Whether `status` is a success for a request of the given verb.
pub fn status_accepted(verb: Verb, status: u16) -> (r: bool)
    ensures
        r == accepted(verb, status),
{
    match verb {
        Verb::Get => status == STATUS_OK,
        Verb::Post => status == STATUS_CREATED,
        Verb::Patch => status == STATUS_OK,
        Verb::Delete => status == STATUS_OK || status == STATUS_NO_CONTENT,
    }
}

/// The fetch of `endpoint`.
pub fn get_request(authentication: &Authentication, endpoint: &str) -> (r: ResourceRequest)
    ensures
        request_is(r, Verb::Get, resource_url_of(authentication.config.url@, endpoint@), false),
        r.payload is None,
{
    ResourceRequest {
        verb: Verb::Get,
        url: resource_url(authentication.config.url.as_str(), endpoint),
        prefer_representation: false,
        payload: None,
    }
}

/// The creation of `payload` under `endpoint`; the backend is asked to echo
/// the created record.
pub fn post_request(authentication: &Authentication, endpoint: &str, payload: Payload) -> (r:
    ResourceRequest)
    ensures
        request_is(r, Verb::Post, resource_url_of(authentication.config.url@, endpoint@), true),
        r.payload == Some(payload),
{
    ResourceRequest {
        verb: Verb::Post,
        url: resource_url(authentication.config.url.as_str(), endpoint),
        prefer_representation: true,
        payload: Some(payload),
    }
}

/// The partial update of the records under `endpoint` with `payload`.
pub fn patch_request(authentication: &Authentication, endpoint: &str, payload: Payload) -> (r:
    ResourceRequest)
    ensures
        request_is(r, Verb::Patch, resource_url_of(authentication.config.url@, endpoint@), true),
        r.payload == Some(payload),
{
    ResourceRequest {
        verb: Verb::Patch,
        url: resource_url(authentication.config.url.as_str(), endpoint),
        prefer_representation: true,
        payload: Some(payload),
    }
}

/// The removal of the records under `endpoint`.
pub fn delete_request(authentication: &Authentication, endpoint: &str) -> (r: ResourceRequest)
    ensures
        request_is(r, Verb::Delete, resource_url_of(authentication.config.url@, endpoint@), false),
        r.payload is None,
{
    ResourceRequest {
        verb: Verb::Delete,
        url: resource_url(authentication.config.url.as_str(), endpoint),
        prefer_representation: false,
        payload: None,
    }
}

/// The record that a create answer holding `v` stands for: the sole element
/// of a one-element array, and the value itself otherwise.
pub open spec fn created_record_of(v: serde_json::Value) -> serde_json::Value {
    match json_array_of(v) {
        Some(items) => if items.len() == 1 {
            items[0]
        } else {
            v
        },
        None => v,
    }
}

/// Interprets the answer to a fetch: the parsed body when the status is
/// `200`, the status error carrying the exact code otherwise.
pub fn get_outcome(status: u16, body: &str) -> (r: Result<serde_json::Value, CommandError>)
    ensures
        !accepted(Verb::Get, status) ==> is_status_error(r, status),
        accepted(Verb::Get, status) ==> match json_value_of(body@) {
            Some(v) => r == Ok::<serde_json::Value, CommandError>(v),
            None => r matches Err(CommandError::Parse(_)),
        },
{
    if !status_accepted(Verb::Get, status) {
        return Err(CommandError::WrongResponseStatus(status));
    }
    match parse_json(body) {
        Ok(v) => Ok(v),
        Err(e) => Err(CommandError::Parse(e)),
    }
}

/// The record that a create answer stands for: the sole element of a
/// one-element array, and the value itself otherwise.
pub fn created_record(v: serde_json::Value) -> (r: serde_json::Value)
    ensures
        r == created_record_of(v),
{
    let sole = match v.as_array() {
        Some(items) => if items.len() == 1 {
            Some(items[0].clone())
        } else {
            None
        },
        None => None,
    };
    match sole {
        Some(item) => item,
        None => v,
    }
}

/// Interprets the answer to a create: with status `201`, the created record
/// (the sole element when the backend echoes a one-element array); the
/// status error carrying the exact code otherwise.
pub fn post_outcome(status: u16, body: &str) -> (r: Result<serde_json::Value, CommandError>)
    ensures
        !accepted(Verb::Post, status) ==> is_status_error(r, status),
        accepted(Verb::Post, status) ==> match json_value_of(body@) {
            Some(v) => r == Ok::<serde_json::Value, CommandError>(created_record_of(v)),
            None => r matches Err(CommandError::Parse(_)),
        },
{
    if !status_accepted(Verb::Post, status) {
        return Err(CommandError::WrongResponseStatus(status));
    }
    match parse_json(body) {
        Ok(v) => Ok(created_record(v)),
        Err(e) => Err(CommandError::Parse(e)),
    }
}

/// Interprets the answer to an update: success exactly on `200`.
pub fn patch_outcome(status: u16) -> (r: Result<(), CommandError>)
    ensures
        r is Ok <==> accepted(Verb::Patch, status),
        r is Err ==> is_status_error(r, status),
{
    if !status_accepted(Verb::Patch, status) {
        return Err(CommandError::WrongResponseStatus(status));
    }
    Ok(())
}

/// Interprets the answer to a removal: success exactly on `200` or `204`.
pub fn delete_outcome(status: u16) -> (r: Result<(), CommandError>)
    ensures
        r is Ok <==> accepted(Verb::Delete, status),
        r is Err ==> is_status_error(r, status),
{
    if !status_accepted(Verb::Delete, status) {
        return Err(CommandError::WrongResponseStatus(status));
    }
    Ok(())
}

/// A create answered `201` with a one-element array stands for that element.
pub proof fn sole_element_is_the_record(v: serde_json::Value)
    requires
        json_array_of(v) matches Some(items) && items.len() == 1,
    ensures
        created_record_of(v) == json_array_of(v)->Some_0[0],
{
}

/// Renders a fetched or created value as indented JSON.
pub fn render(v: &serde_json::Value) -> (r: Result<String, CommandError>)
    ensures
        match pretty_text_of(*v) {
            Some(t) => r is Ok && r->Ok_0@ == t,
            None => r matches Err(CommandError::Parse(_)),
        },
{
    match pretty_json(v) {
        Ok(s) => Ok(s),
        Err(e) => Err(CommandError::Parse(e)),
    }
}

} // verus!
