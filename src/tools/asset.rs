//! Assets.
use crate::authentication::Authentication;
use crate::codec::{json_value_of, parse_json};
use crate::commands::{
    delete_request, get_request, is_text_field, patch_request, post_request, request_is,
    resource_url_of, Field, FieldValue, Payload, ResourceRequest, Verb,
};
use crate::tools::{
    and_maybe, fields_are, push_text, receipt, text_field, text_of, with_id, Expected,
    NO_FIELDS_MESSAGE, ID_KEY, STATUS_KEY,
};
use vstd::prelude::*;

verus! {

/// Every asset but the files that edge apps are built from.
pub const ASSETS_LISTING: &'static str = "v4/assets?type=neq.edge-app-file";

pub const ASSETS_ENDPOINT: &'static str = "v4/assets";

pub const ASSET_BY_ID: &'static str = "v4/assets?id=eq.";

pub const TITLE_KEY: &'static str = "title";

pub const SOURCE_URL_KEY: &'static str = "source_url";

pub const JS_INJECTION_KEY: &'static str = "js_injection";

pub const HEADERS_KEY: &'static str = "headers";

pub const DELETED: &'static str = "deleted";

/// What a refusal of malformed headers starts with.
pub const INVALID_HEADERS_PREFIX: &'static str = "Invalid headers JSON: ";

/// The members that an asset update sends: the given ones, in order.
pub open spec fn asset_update_fields(
    title: Option<String>,
    js_injection: Option<String>,
    headers: Option<String>,
) -> Seq<(Seq<char>, Expected)> {
    and_maybe(
        and_maybe(and_maybe(Seq::empty(), TITLE_KEY@, text_of(title)), JS_INJECTION_KEY@, text_of(js_injection)),
        HEADERS_KEY@,
        match headers {
            Some(h) => Some(Expected::Json(json_value_of(h@)->Some_0)),
            None => None,
        },
    )
}

/// The asset operations.
pub struct AssetTools;

impl AssetTools {
    /// Lists every asset but edge-app files.
    pub fn list_request(auth: &Authentication) -> (r: ResourceRequest)
        ensures
            request_is(r, Verb::Get, resource_url_of(auth.config.url@, ASSETS_LISTING@), false),
            r.payload is None,
    {
        get_request(auth, ASSETS_LISTING)
    }

    /// Fetches the asset `uuid`.
    pub fn get_request(auth: &Authentication, uuid: &str) -> (r: ResourceRequest)
        ensures
            request_is(r, Verb::Get, resource_url_of(auth.config.url@, ASSET_BY_ID@ + uuid@), false),
            r.payload is None,
    {
        let endpoint = with_id(ASSET_BY_ID, uuid);
        get_request(auth, endpoint.as_str())
    }

    /// Creates an asset from a URL.
    pub fn create_request(auth: &Authentication, title: &str, source_url: &str) -> (r:
        ResourceRequest)
        ensures
            request_is(r, Verb::Post, resource_url_of(auth.config.url@, ASSETS_ENDPOINT@), true),
            r.payload matches Some(Payload::Record(fields)) && fields@.len() == 2
                && is_text_field(fields@[0], TITLE_KEY@, title@) && is_text_field(
                fields@[1],
                SOURCE_URL_KEY@,
                source_url@,
            ),
    {
        let fields = vec![text_field(TITLE_KEY, title), text_field(SOURCE_URL_KEY, source_url)];
        post_request(auth, ASSETS_ENDPOINT, Payload::Record(fields))
    }

    /// Changes the given properties of an asset. `headers` is JSON text and
    /// is sent as the value it holds. Refused when `headers` is not JSON, and otherwise
    /// when no property is given.
    pub fn update_request(
        auth: &Authentication,
        uuid: &str,
        title: Option<String>,
        js_injection: Option<String>,
        headers: Option<String>,
    ) -> (r: Result<ResourceRequest, String>)
        ensures
            headers matches Some(h) && json_value_of(h@) is None ==> (r matches Err(m) && m@.subrange(
                0,
                INVALID_HEADERS_PREFIX@.len() as int,
            ) == INVALID_HEADERS_PREFIX@),
            (headers matches Some(h) ==> json_value_of(h@) is Some) ==> (r is Err <==> (title is None
                && js_injection is None && headers is None)),
            title is None && js_injection is None && headers is None ==> (r matches Err(m) && m@
                == NO_FIELDS_MESSAGE@),
            r matches Ok(req) ==> {
                &&& request_is(
                    req,
                    Verb::Patch,
                    resource_url_of(auth.config.url@, ASSET_BY_ID@ + uuid@),
                    true,
                )
                &&& (req.payload matches Some(Payload::Record(fields)) && fields_are(
                    fields@,
                    asset_update_fields(title, js_injection, headers),
                ))
            },
    {
        let mut fields: Vec<Field> = Vec::new();
        push_text(&mut fields, TITLE_KEY, title, Ghost(Seq::empty()));
        push_text(
            &mut fields,
            JS_INJECTION_KEY,
            js_injection,
            Ghost(and_maybe(Seq::empty(), TITLE_KEY@, text_of(title))),
        );
        if let Some(h) = headers {
            match parse_json(h.as_str()) {
                Ok(v) => {
                    fields.push(Field { name: HEADERS_KEY.to_owned(), value: FieldValue::Json(v) });
                },
                Err(e) => {
                    let mut m = INVALID_HEADERS_PREFIX.to_owned();
                    let detail = e.to_string();
                    m.append(detail.as_str());
                    assert(m@.subrange(0, INVALID_HEADERS_PREFIX@.len() as int)
                        =~= INVALID_HEADERS_PREFIX@);
                    return Err(m);
                },
            }
        }
        if fields.len() == 0 {
            return Err(NO_FIELDS_MESSAGE.to_owned());
        }
        let endpoint = with_id(ASSET_BY_ID, uuid);
        Ok(patch_request(auth, endpoint.as_str(), Payload::Record(fields)))
    }

    /// Removes the asset `uuid`.
    pub fn delete_request(auth: &Authentication, uuid: &str) -> (r: ResourceRequest)
        ensures
            request_is(
                r,
                Verb::Delete,
                resource_url_of(auth.config.url@, ASSET_BY_ID@ + uuid@),
                false,
            ),
            r.payload is None,
    {
        let endpoint = with_id(ASSET_BY_ID, uuid);
        delete_request(auth, endpoint.as_str())
    }

    /// The confirmation of a removal.
    pub fn delete_receipt(uuid: &str) -> (r: Vec<Field>)
        ensures
            r@.len() == 2,
            is_text_field(r@[0], STATUS_KEY@, DELETED@),
            is_text_field(r@[1], ID_KEY@, uuid@),
    {
        receipt(DELETED, ID_KEY, uuid)
    }
}

} // verus!
