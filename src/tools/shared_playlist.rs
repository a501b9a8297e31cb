//! Playlists shared with other teams.
use crate::authentication::Authentication;
use crate::commands::{
    delete_request, get_request, is_text_field, post_request, request_is, resource_url_of, Field,
    Payload, ResourceRequest, Verb,
};
use crate::tools::{link_receipt, text_field, with_two_ids, STATUS_KEY};
use vstd::prelude::*;

verus! {

pub const SHARED_PLAYLISTS_ENDPOINT: &'static str = "v4/playlists/shared";

pub const SHARE_OF_PLAYLIST: &'static str = "v4/playlists/shared?playlist_id=eq.";

pub const TEAM_FILTER: &'static str = "&team_id=eq.";

pub const PLAYLIST_ID_KEY: &'static str = "playlist_id";

pub const TEAM_ID_KEY: &'static str = "team_id";

pub const UNSHARED: &'static str = "unshared";

/// The shared playlist operations.
pub struct SharedPlaylistTools;

impl SharedPlaylistTools {
    /// Lists the shared playlists.
    pub fn list_request(auth: &Authentication) -> (r: ResourceRequest)
        ensures
            request_is(
                r,
                Verb::Get,
                resource_url_of(auth.config.url@, SHARED_PLAYLISTS_ENDPOINT@),
                false,
            ),
            r.payload is None,
    {
        get_request(auth, SHARED_PLAYLISTS_ENDPOINT)
    }

    /// Shares a playlist with a team.
    pub fn create_request(auth: &Authentication, playlist_uuid: &str, team_uuid: &str) -> (r:
        ResourceRequest)
        ensures
            request_is(
                r,
                Verb::Post,
                resource_url_of(auth.config.url@, SHARED_PLAYLISTS_ENDPOINT@),
                true,
            ),
            r.payload matches Some(Payload::Record(fields)) && fields@.len() == 2
                && is_text_field(fields@[0], PLAYLIST_ID_KEY@, playlist_uuid@) && is_text_field(
                fields@[1],
                TEAM_ID_KEY@,
                team_uuid@,
            ),
    {
        let fields = vec![
            text_field(PLAYLIST_ID_KEY, playlist_uuid),
            text_field(TEAM_ID_KEY, team_uuid),
        ];
        post_request(auth, SHARED_PLAYLISTS_ENDPOINT, Payload::Record(fields))
    }

    /// Stops sharing a playlist with a team.
    pub fn delete_request(auth: &Authentication, playlist_uuid: &str, team_uuid: &str) -> (r:
        ResourceRequest)
        ensures
            request_is(
                r,
                Verb::Delete,
                resource_url_of(
                    auth.config.url@,
                    SHARE_OF_PLAYLIST@ + playlist_uuid@ + TEAM_FILTER@ + team_uuid@,
                ),
                false,
            ),
            r.payload is None,
    {
        let endpoint = with_two_ids(SHARE_OF_PLAYLIST, playlist_uuid, TEAM_FILTER, team_uuid, "");
        proof {
            reveal_strlit("");
            assert(endpoint@ =~= SHARE_OF_PLAYLIST@ + playlist_uuid@ + TEAM_FILTER@ + team_uuid@);
        }
        delete_request(auth, endpoint.as_str())
    }

    /// The confirmation of an unsharing.
    pub fn delete_receipt(playlist_uuid: &str, team_uuid: &str) -> (r: Vec<Field>)
        ensures
            r@.len() == 3,
            is_text_field(r@[0], STATUS_KEY@, UNSHARED@),
            is_text_field(r@[1], PLAYLIST_ID_KEY@, playlist_uuid@),
            is_text_field(r@[2], TEAM_ID_KEY@, team_uuid@),
    {
        link_receipt(UNSHARED, PLAYLIST_ID_KEY, playlist_uuid, TEAM_ID_KEY, team_uuid)
    }
}

} // verus!
