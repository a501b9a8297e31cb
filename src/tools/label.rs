//! Labels, which group screens and target playlists.
use crate::authentication::Authentication;
use crate::commands::{
    delete_request, get_request, is_text_field, patch_request, post_request, request_is,
    resource_url_of, Field, Payload, ResourceRequest, Verb,
};
use crate::tools::{link_receipt, receipt, text_field, with_id, with_two_ids, ID_KEY, STATUS_KEY};
use vstd::prelude::*;

verus! {

pub const LABELS_ENDPOINT: &'static str = "v4/labels";

pub const LABEL_BY_ID: &'static str = "v4/labels?id=eq.";

pub const LABEL_SCREENS_ENDPOINT: &'static str = "v4/labels/screens";

pub const LABEL_PLAYLISTS_ENDPOINT: &'static str = "v4/labels/playlists";

pub const SCREEN_LINK_OF_LABEL: &'static str = "v4/labels/screens?label_id=eq.";

pub const PLAYLIST_LINK_OF_LABEL: &'static str = "v4/labels/playlists?label_id=eq.";

pub const SCREEN_FILTER: &'static str = "&screen_id=eq.";

pub const PLAYLIST_FILTER: &'static str = "&playlist_id=eq.";

pub const NAME_KEY: &'static str = "name";

pub const LABEL_ID_KEY: &'static str = "label_id";

pub const SCREEN_ID_KEY: &'static str = "screen_id";

pub const PLAYLIST_ID_KEY: &'static str = "playlist_id";

pub const DELETED: &'static str = "deleted";

pub const UNLINKED: &'static str = "unlinked";

/// Whether `r` carries exactly the text members `first_key: first` and
/// `second_key: second`.
pub open spec fn carries_pair(
    r: ResourceRequest,
    first_key: Seq<char>,
    first: Seq<char>,
    second_key: Seq<char>,
    second: Seq<char>,
) -> bool {
    r.payload matches Some(Payload::Record(fields)) && fields@.len() == 2 && is_text_field(
        fields@[0],
        first_key,
        first,
    ) && is_text_field(fields@[1], second_key, second)
}

/// The label operations.
pub struct LabelTools;

impl LabelTools {
    /// Lists every label.
    pub fn list_request(auth: &Authentication) -> (r: ResourceRequest)
        ensures
            request_is(r, Verb::Get, resource_url_of(auth.config.url@, LABELS_ENDPOINT@), false),
            r.payload is None,
    {
        get_request(auth, LABELS_ENDPOINT)
    }

    /// Creates a label named `name`.
    pub fn create_request(auth: &Authentication, name: &str) -> (r: ResourceRequest)
        ensures
            request_is(r, Verb::Post, resource_url_of(auth.config.url@, LABELS_ENDPOINT@), true),
            r.payload matches Some(Payload::Record(fields)) && fields@.len() == 1
                && is_text_field(fields@[0], NAME_KEY@, name@),
    {
        post_request(auth, LABELS_ENDPOINT, Payload::Record(vec![text_field(NAME_KEY, name)]))
    }

    /// Renames the label `uuid`.
    pub fn update_request(auth: &Authentication, uuid: &str, name: &str) -> (r: ResourceRequest)
        ensures
            request_is(
                r,
                Verb::Patch,
                resource_url_of(auth.config.url@, LABEL_BY_ID@ + uuid@),
                true,
            ),
            r.payload matches Some(Payload::Record(fields)) && fields@.len() == 1
                && is_text_field(fields@[0], NAME_KEY@, name@),
    {
        let endpoint = with_id(LABEL_BY_ID, uuid);
        patch_request(auth, endpoint.as_str(), Payload::Record(vec![text_field(NAME_KEY, name)]))
    }

    /// Removes the label `uuid`.
    pub fn delete_request(auth: &Authentication, uuid: &str) -> (r: ResourceRequest)
        ensures
            request_is(
                r,
                Verb::Delete,
                resource_url_of(auth.config.url@, LABEL_BY_ID@ + uuid@),
                false,
            ),
            r.payload is None,
    {
        let endpoint = with_id(LABEL_BY_ID, uuid);
        delete_request(auth, endpoint.as_str())
    }

    /// The confirmation of a removal.
    pub fn delete_receipt(uuid: &str) -> (r: Vec<Field>)
        ensures
            r@.len() == 2,
            is_text_field(r@[0], STATUS_KEY@, DELETED@),
            is_text_field(r@[1], ID_KEY@, uuid@),
    {
        receipt(DELETED, ID_KEY, uuid)
    }

    /// Attaches a label to a screen.
    pub fn link_screen_request(auth: &Authentication, label_uuid: &str, screen_uuid: &str) -> (r:
        ResourceRequest)
        ensures
            request_is(
                r,
                Verb::Post,
                resource_url_of(auth.config.url@, LABEL_SCREENS_ENDPOINT@),
                true,
            ),
            carries_pair(r, LABEL_ID_KEY@, label_uuid@, SCREEN_ID_KEY@, screen_uuid@),
    {
        let fields = vec![
            text_field(LABEL_ID_KEY, label_uuid),
            text_field(SCREEN_ID_KEY, screen_uuid),
        ];
        post_request(auth, LABEL_SCREENS_ENDPOINT, Payload::Record(fields))
    }

    /// Removes a label from a screen.
    pub fn unlink_screen_request(auth: &Authentication, label_uuid: &str, screen_uuid: &str) -> (r:
        ResourceRequest)
        ensures
            request_is(
                r,
                Verb::Delete,
                resource_url_of(
                    auth.config.url@,
                    SCREEN_LINK_OF_LABEL@ + label_uuid@ + SCREEN_FILTER@ + screen_uuid@,
                ),
                false,
            ),
            r.payload is None,
    {
        let endpoint = with_two_ids(SCREEN_LINK_OF_LABEL, label_uuid, SCREEN_FILTER, screen_uuid, "");
        proof {
            reveal_strlit("");
            assert(endpoint@ =~= SCREEN_LINK_OF_LABEL@ + label_uuid@ + SCREEN_FILTER@
                + screen_uuid@);
        }
        delete_request(auth, endpoint.as_str())
    }

    /// The confirmation of an unlinking from a screen.
    pub fn unlink_screen_receipt(label_uuid: &str, screen_uuid: &str) -> (r: Vec<Field>)
        ensures
            r@.len() == 3,
            is_text_field(r@[0], STATUS_KEY@, UNLINKED@),
            is_text_field(r@[1], LABEL_ID_KEY@, label_uuid@),
            is_text_field(r@[2], SCREEN_ID_KEY@, screen_uuid@),
    {
        link_receipt(UNLINKED, LABEL_ID_KEY, label_uuid, SCREEN_ID_KEY, screen_uuid)
    }

    /// Attaches a label to a playlist.
    pub fn link_playlist_request(auth: &Authentication, label_uuid: &str, playlist_uuid: &str) -> (r:
        ResourceRequest)
        ensures
            request_is(
                r,
                Verb::Post,
                resource_url_of(auth.config.url@, LABEL_PLAYLISTS_ENDPOINT@),
                true,
            ),
            carries_pair(r, LABEL_ID_KEY@, label_uuid@, PLAYLIST_ID_KEY@, playlist_uuid@),
    {
        let fields = vec![
            text_field(LABEL_ID_KEY, label_uuid),
            text_field(PLAYLIST_ID_KEY, playlist_uuid),
        ];
        post_request(auth, LABEL_PLAYLISTS_ENDPOINT, Payload::Record(fields))
    }

    /// Removes a label from a playlist.
    pub fn unlink_playlist_request(
        auth: &Authentication,
        label_uuid: &str,
        playlist_uuid: &str,
    ) -> (r: ResourceRequest)
        ensures
            request_is(
                r,
                Verb::Delete,
                resource_url_of(
                    auth.config.url@,
                    PLAYLIST_LINK_OF_LABEL@ + label_uuid@ + PLAYLIST_FILTER@ + playlist_uuid@,
                ),
                false,
            ),
            r.payload is None,
    {
        let endpoint = with_two_ids(
            PLAYLIST_LINK_OF_LABEL,
            label_uuid,
            PLAYLIST_FILTER,
            playlist_uuid,
            "",
        );
        proof {
            reveal_strlit("");
            assert(endpoint@ =~= PLAYLIST_LINK_OF_LABEL@ + label_uuid@ + PLAYLIST_FILTER@
                + playlist_uuid@);
        }
        delete_request(auth, endpoint.as_str())
    }

    /// The confirmation of an unlinking from a playlist.
    pub fn unlink_playlist_receipt(label_uuid: &str, playlist_uuid: &str) -> (r: Vec<Field>)
        ensures
            r@.len() == 3,
            is_text_field(r@[0], STATUS_KEY@, UNLINKED@),
            is_text_field(r@[1], LABEL_ID_KEY@, label_uuid@),
            is_text_field(r@[2], PLAYLIST_ID_KEY@, playlist_uuid@),
    {
        link_receipt(UNLINKED, LABEL_ID_KEY, label_uuid, PLAYLIST_ID_KEY, playlist_uuid)
    }
}

} // verus!
