//! Playlists.
use crate::authentication::Authentication;
use crate::commands::{
    delete_request, get_request, is_flag_field, is_text_field, patch_request, post_request,
    request_is, resource_url_of, Field, Payload, ResourceRequest, Verb,
};
use crate::tools::{
    and_maybe, fields_are, flag_field, flag_of, push_flag, push_text, receipt, text_field,
    text_of, with_id, Expected, ID_KEY, NO_FIELDS_MESSAGE, STATUS_KEY,
};
use vstd::prelude::*;

verus! {

pub const PLAYLISTS_ENDPOINT: &'static str = "v4/playlists";

pub const PLAYLIST_BY_ID: &'static str = "v4/playlists?id=eq.";

pub const TITLE_KEY: &'static str = "title";

pub const PREDICATE_KEY: &'static str = "predicate";

pub const PRIORITY_KEY: &'static str = "priority";

pub const IS_ENABLED_KEY: &'static str = "is_enabled";

pub const TRANSITIONS_KEY: &'static str = "transitions";

/// The predicate of a playlist that is always shown.
pub const ALWAYS: &'static str = "TRUE";

pub const DELETED: &'static str = "deleted";

/// The members that a playlist update sends: the given ones, in order.
pub open spec fn playlist_update_fields(
    title: Option<String>,
    predicate: Option<String>,
    priority: Option<bool>,
    is_enabled: Option<bool>,
) -> Seq<(Seq<char>, Expected)> {
    and_maybe(
        and_maybe(
            and_maybe(and_maybe(Seq::empty(), TITLE_KEY@, text_of(title)), PREDICATE_KEY@, text_of(predicate)),
            PRIORITY_KEY@,
            flag_of(priority),
        ),
        IS_ENABLED_KEY@,
        flag_of(is_enabled),
    )
}

/// The playlist operations.
pub struct PlaylistTools;

impl PlaylistTools {
    /// Lists every playlist.
    pub fn list_request(auth: &Authentication) -> (r: ResourceRequest)
        ensures
            request_is(r, Verb::Get, resource_url_of(auth.config.url@, PLAYLISTS_ENDPOINT@), false),
            r.payload is None,
    {
        get_request(auth, PLAYLISTS_ENDPOINT)
    }

    /// Creates a playlist. Unless given, the predicate is `TRUE` (always
    /// shown), the playlist has no priority, and it is enabled; transitions
    /// are always on.
    pub fn create_request(
        auth: &Authentication,
        title: &str,
        predicate: Option<String>,
        priority: Option<bool>,
        is_enabled: Option<bool>,
    ) -> (r: ResourceRequest)
        ensures
            request_is(r, Verb::Post, resource_url_of(auth.config.url@, PLAYLISTS_ENDPOINT@), true),
            (r.payload matches Some(Payload::Record(fields)) && {
                let f = fields@;
                &&& f.len() == 5
                &&& is_text_field(f[0], TITLE_KEY@, title@)
                &&& is_text_field(
                    f[1],
                    PREDICATE_KEY@,
                    match predicate {
                        Some(p) => p@,
                        None => ALWAYS@,
                    },
                )
                &&& is_flag_field(
                    f[2],
                    PRIORITY_KEY@,
                    match priority {
                        Some(p) => p,
                        None => false,
                    },
                )
                &&& is_flag_field(
                    f[3],
                    IS_ENABLED_KEY@,
                    match is_enabled {
                        Some(e) => e,
                        None => true,
                    },
                )
                &&& is_flag_field(f[4], TRANSITIONS_KEY@, true)
            }),
    {
        let predicate = match predicate {
            Some(p) => p,
            None => ALWAYS.to_owned(),
        };
        let priority = match priority {
            Some(p) => p,
            None => false,
        };
        let is_enabled = match is_enabled {
            Some(e) => e,
            None => true,
        };
        let fields = vec![
            text_field(TITLE_KEY, title),
            text_field(PREDICATE_KEY, predicate.as_str()),
            flag_field(PRIORITY_KEY, priority),
            flag_field(IS_ENABLED_KEY, is_enabled),
            flag_field(TRANSITIONS_KEY, true),
        ];
        post_request(auth, PLAYLISTS_ENDPOINT, Payload::Record(fields))
    }

    /// Changes the given properties of a playlist; refused when none is
    /// given.
    pub fn update_request(
        auth: &Authentication,
        uuid: &str,
        title: Option<String>,
        predicate: Option<String>,
        priority: Option<bool>,
        is_enabled: Option<bool>,
    ) -> (r: Result<ResourceRequest, String>)
        ensures
            r is Err <==> (title is None && predicate is None && priority is None
                && is_enabled is None),
            r matches Err(m) ==> m@ == NO_FIELDS_MESSAGE@,
            r matches Ok(req) ==> {
                &&& request_is(
                    req,
                    Verb::Patch,
                    resource_url_of(auth.config.url@, PLAYLIST_BY_ID@ + uuid@),
                    true,
                )
                &&& (req.payload matches Some(Payload::Record(fields)) && fields_are(
                    fields@,
                    playlist_update_fields(title, predicate, priority, is_enabled),
                ))
            },
    {
        let ghost after_title = and_maybe(Seq::empty(), TITLE_KEY@, text_of(title));
        let ghost after_predicate = and_maybe(after_title, PREDICATE_KEY@, text_of(predicate));
        let ghost after_priority = and_maybe(after_predicate, PRIORITY_KEY@, flag_of(priority));
        let mut fields: Vec<Field> = Vec::new();
        push_text(&mut fields, TITLE_KEY, title, Ghost(Seq::empty()));
        push_text(&mut fields, PREDICATE_KEY, predicate, Ghost(after_title));
        push_flag(&mut fields, PRIORITY_KEY, priority, Ghost(after_predicate));
        push_flag(&mut fields, IS_ENABLED_KEY, is_enabled, Ghost(after_priority));
        if fields.len() == 0 {
            return Err(NO_FIELDS_MESSAGE.to_owned());
        }
        let endpoint = with_id(PLAYLIST_BY_ID, uuid);
        Ok(patch_request(auth, endpoint.as_str(), Payload::Record(fields)))
    }

    /// Removes the playlist `uuid`.
    pub fn delete_request(auth: &Authentication, uuid: &str) -> (r: ResourceRequest)
        ensures
            request_is(
                r,
                Verb::Delete,
                resource_url_of(auth.config.url@, PLAYLIST_BY_ID@ + uuid@),
                false,
            ),
            r.payload is None,
    {
        let endpoint = with_id(PLAYLIST_BY_ID, uuid);
        delete_request(auth, endpoint.as_str())
    }

    /// The confirmation of a removal.
    pub fn delete_receipt(uuid: &str) -> (r: Vec<Field>)
        ensures
            r@.len() == 2,
            is_text_field(r@[0], STATUS_KEY@, DELETED@),
            is_text_field(r@[1], ID_KEY@, uuid@),
    {
        receipt(DELETED, ID_KEY, uuid)
    }
}

} // verus!
