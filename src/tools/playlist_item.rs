//! Playlist items, and the allocation of their positions.
//!
//! Items of a playlist are ordered by an integer position. A new item is
//! placed after the last one, a fixed gap further, so that no existing item
//! is renumbered and later items can be slotted in between. An explicit
//! position is used as given, without any lookup.
use crate::authentication::Authentication;
use crate::codec::{json_array_of, json_member, json_member_of, json_object_of, json_u64_of};
use crate::commands::{
    delete_request, get_request, is_number_field, is_text_field, patch_request, post_request,
    request_is, resource_url_of, Field, Payload, ResourceRequest, Verb,
};
use crate::tools::{
    and_maybe, fields_are, number_field, number_of, push_number, text_field, with_two_ids,
    Expected, NO_FIELDS_MESSAGE,
};
use vstd::prelude::*;

verus! {

/// Gap between the positions of successive items appended to a playlist,
/// and the position of the first item of an empty one.
pub const POSITION_MULTIPLIER: u64 = 100000;

pub const ITEMS_OF_PLAYLIST: &'static str = "v4/playlist-items?playlist_id=eq.";

pub const ASCENDING: &'static str = "&order=position.asc";

pub const LATEST_POSITION_OF_PLAYLIST: &'static str =
    "v4/playlist-items?select=position&playlist_id=eq.";

pub const DESCENDING_FIRST: &'static str = "&order=position.desc&limit=1";

pub const ITEMS_ENDPOINT: &'static str = "v4/playlist-items";

pub const ITEM_FILTER: &'static str = "&id=eq.";

pub const PLAYLIST_ID_KEY: &'static str = "playlist_id";

pub const ASSET_ID_KEY: &'static str = "asset_id";

pub const DURATION_KEY: &'static str = "duration";

pub const POSITION_KEY: &'static str = "position";

pub const ITEM_ID_KEY: &'static str = "item_id";

pub const DELETED: &'static str = "deleted";

/// Message of an append that would take the position past the largest
/// integer.
pub const POSITIONS_EXHAUSTED_MESSAGE: &'static str = "No position is left after the last item";

/// How the position of a new item is found.
#[derive(Debug, PartialEq)]
pub enum PositionPlan {
    /// The caller chose it; nothing is looked up.
    Given(u64),
    /// It follows the latest position, which this request fetches.
    LookUp(ResourceRequest),
}

/// The position that follows `latest`, the largest position in a playlist
/// (`None` for an empty playlist).
pub open spec fn next_position(latest: Option<u64>) -> int {
    match latest {
        Some(p) => p + POSITION_MULTIPLIER,
        None => POSITION_MULTIPLIER as int,
    }
}

/// The largest position that the answer `listing` to the lookup reports:
/// the `position` number of its first row, when it is an array whose first
/// row is an object with such a member; `None` otherwise.
pub open spec fn latest_position_of(listing: serde_json::Value) -> Option<u64> {
    match json_array_of(listing) {
        Some(items) => if items.len() == 0 {
            None
        } else {
            match json_object_of(items[0]) {
                Some(row) => match json_member_of(row, POSITION_KEY@) {
                    Some(p) => json_u64_of(p),
                    None => None,
                },
                None => None,
            }
        },
        None => None,
    }
}

/// An empty playlist starts at the gap; otherwise a new item lands exactly
/// one gap after the largest position.
pub proof fn appended_position_is_one_gap_later(latest: u64)
    ensures
        next_position(None) == 100000,
        next_position(Some(latest)) == latest + 100000,
        next_position(Some(latest)) > latest,
{
}

/// The playlist item operations.
pub struct PlaylistItemTools;

impl PlaylistItemTools {
    /// Lists the items of a playlist in ascending position.
    pub fn list_request(auth: &Authentication, playlist_uuid: &str) -> (r: ResourceRequest)
        ensures
            request_is(
                r,
                Verb::Get,
                resource_url_of(
                    auth.config.url@,
                    ITEMS_OF_PLAYLIST@ + playlist_uuid@ + ASCENDING@,
                ),
                false,
            ),
            r.payload is None,
    {
        let endpoint = with_two_ids(ITEMS_OF_PLAYLIST, playlist_uuid, ASCENDING, "", "");
        proof {
            reveal_strlit("");
            assert(endpoint@ =~= ITEMS_OF_PLAYLIST@ + playlist_uuid@ + ASCENDING@);
        }
        get_request(auth, endpoint.as_str())
    }

    /// How to find the position of a new item: the explicit one as given,
    /// or a lookup of the single largest position in the playlist.
    pub fn position_plan(auth: &Authentication, playlist_uuid: &str, position: Option<u64>) -> (r:
        PositionPlan)
        ensures
            position matches Some(p) ==> r == PositionPlan::Given(p),
            position is None ==> (r matches PositionPlan::LookUp(req) && req.payload is None
                && request_is(
                req,
                Verb::Get,
                resource_url_of(
                    auth.config.url@,
                    LATEST_POSITION_OF_PLAYLIST@ + playlist_uuid@ + DESCENDING_FIRST@,
                ),
                false,
            )),
    {
        match position {
            Some(p) => PositionPlan::Given(p),
            None => {
                let endpoint = with_two_ids(
                    LATEST_POSITION_OF_PLAYLIST,
                    playlist_uuid,
                    DESCENDING_FIRST,
                    "",
                    "",
                );
                proof {
                    reveal_strlit("");
                    assert(endpoint@ =~= LATEST_POSITION_OF_PLAYLIST@ + playlist_uuid@
                        + DESCENDING_FIRST@);
                }
                PositionPlan::LookUp(get_request(auth, endpoint.as_str()))
            },
        }
    }

    /// The largest position in a playlist, read from the answer to the
    /// lookup: the `position` of its first row. An empty answer, or one
    /// without a readable position, counts as an empty playlist.
    pub fn latest_position(listing: &serde_json::Value) -> (r: Option<u64>)
        ensures
            r == latest_position_of(*listing),
            json_array_of(*listing) is None ==> r is None,
            (json_array_of(*listing) matches Some(items) && items.len() == 0) ==> r is None,
    {
        match listing.as_array() {
            Some(items) => if items.len() == 0 {
                None
            } else {
                match items[0].as_object() {
                    Some(row) => match json_member(row, POSITION_KEY) {
                        Some(p) => p.as_u64(),
                        None => None,
                    },
                    None => None,
                }
            },
            None => None,
        }
    }

    /// The position of an item appended after `latest`: the gap itself for
    /// an empty playlist, `latest` plus the gap otherwise. Fails only when
    /// that sum exceeds the largest integer.
    pub fn appended_position(latest: Option<u64>) -> (r: Result<u64, String>)
        ensures
            r is Ok <==> next_position(latest) <= u64::MAX,
            r is Ok ==> r->Ok_0 == next_position(latest),
            r is Err ==> r->Err_0@ == POSITIONS_EXHAUSTED_MESSAGE@,
    {
        match latest {
            None => Ok(POSITION_MULTIPLIER),
            Some(p) => if p <= u64::MAX - POSITION_MULTIPLIER {
                Ok(p + POSITION_MULTIPLIER)
            } else {
                Err(POSITIONS_EXHAUSTED_MESSAGE.to_owned())
            },
        }
    }

    /// The position of a new item: the explicit one when given, and
    /// otherwise the one appended after `latest`.
    pub fn allocate_position(position: Option<u64>, latest: Option<u64>) -> (r: Result<
        u64,
        String,
    >)
        ensures
            position matches Some(p) ==> r == Ok::<u64, String>(p),
            position is None ==> (r is Ok <==> next_position(latest) <= u64::MAX),
            position is None && r is Ok ==> r->Ok_0 == next_position(latest),
    {
        match position {
            Some(p) => Ok(p),
            None => Self::appended_position(latest),
        }
    }

    /// Adds an asset to a playlist at `position`: a one-element array.
    pub fn create_request(
        auth: &Authentication,
        playlist_uuid: &str,
        asset_uuid: &str,
        duration: u32,
        position: u64,
    ) -> (r: ResourceRequest)
        ensures
            request_is(r, Verb::Post, resource_url_of(auth.config.url@, ITEMS_ENDPOINT@), true),
            (r.payload matches Some(Payload::Records(rows)) && rows@.len() == 1 && {
                let row = rows@[0]@;
                &&& row.len() == 4
                &&& is_text_field(row[0], PLAYLIST_ID_KEY@, playlist_uuid@)
                &&& is_text_field(row[1], ASSET_ID_KEY@, asset_uuid@)
                &&& is_number_field(row[2], DURATION_KEY@, duration as u64)
                &&& is_number_field(row[3], POSITION_KEY@, position)
            }),
    {
        let row = vec![
            text_field(PLAYLIST_ID_KEY, playlist_uuid),
            text_field(ASSET_ID_KEY, asset_uuid),
            number_field(DURATION_KEY, duration as u64),
            number_field(POSITION_KEY, position),
        ];
        post_request(auth, ITEMS_ENDPOINT, Payload::Records(vec![row]))
    }

    /// Changes the duration or position of an item; refused when neither is
    /// given.
    pub fn update_request(
        auth: &Authentication,
        playlist_uuid: &str,
        item_uuid: &str,
        duration: Option<u32>,
        position: Option<u64>,
    ) -> (r: Result<ResourceRequest, String>)
        ensures
            r is Err <==> duration is None && position is None,
            r is Err ==> r->Err_0@ == NO_FIELDS_MESSAGE@,
            r matches Ok(req) ==> {
                &&& request_is(
                    req,
                    Verb::Patch,
                    resource_url_of(
                        auth.config.url@,
                        ITEMS_OF_PLAYLIST@ + playlist_uuid@ + ITEM_FILTER@ + item_uuid@,
                    ),
                    true,
                )
                &&& (req.payload matches Some(Payload::Record(fields)) && fields_are(
                    fields@,
                    item_update_fields(duration, position),
                ))
            },
    {
        let duration_seconds = match duration {
            Some(d) => Some(d as u64),
            None => None,
        };
        let mut fields: Vec<Field> = Vec::new();
        push_number(&mut fields, DURATION_KEY, duration_seconds, Ghost(Seq::empty()));
        push_number(
            &mut fields,
            POSITION_KEY,
            position,
            Ghost(and_maybe(Seq::empty(), DURATION_KEY@, number_of(duration_seconds))),
        );
        if fields.len() == 0 {
            return Err(NO_FIELDS_MESSAGE.to_owned());
        }
        let endpoint = with_two_ids(ITEMS_OF_PLAYLIST, playlist_uuid, ITEM_FILTER, item_uuid, "");
        proof {
            reveal_strlit("");
            assert(endpoint@ =~= ITEMS_OF_PLAYLIST@ + playlist_uuid@ + ITEM_FILTER@ + item_uuid@);
        }
        Ok(patch_request(auth, endpoint.as_str(), Payload::Record(fields)))
    }

    /// Removes an item from a playlist.
    pub fn delete_request(auth: &Authentication, playlist_uuid: &str, item_uuid: &str) -> (r:
        ResourceRequest)
        ensures
            request_is(
                r,
                Verb::Delete,
                resource_url_of(
                    auth.config.url@,
                    ITEMS_OF_PLAYLIST@ + playlist_uuid@ + ITEM_FILTER@ + item_uuid@,
                ),
                false,
            ),
            r.payload is None,
    {
        let endpoint = with_two_ids(ITEMS_OF_PLAYLIST, playlist_uuid, ITEM_FILTER, item_uuid, "");
        proof {
            reveal_strlit("");
            assert(endpoint@ =~= ITEMS_OF_PLAYLIST@ + playlist_uuid@ + ITEM_FILTER@ + item_uuid@);
        }
        delete_request(auth, endpoint.as_str())
    }

    /// The confirmation of a removal.
    pub fn delete_receipt(playlist_uuid: &str, item_uuid: &str) -> (r: Vec<Field>)
        ensures
            r@.len() == 3,
            is_text_field(r@[0], crate::tools::STATUS_KEY@, DELETED@),
            is_text_field(r@[1], PLAYLIST_ID_KEY@, playlist_uuid@),
            is_text_field(r@[2], ITEM_ID_KEY@, item_uuid@),
    {
        crate::tools::link_receipt(DELETED, PLAYLIST_ID_KEY, playlist_uuid, ITEM_ID_KEY, item_uuid)
    }
}

/// The members that an item update sends: the given ones, in order.
pub open spec fn item_update_fields(duration: Option<u32>, position: Option<u64>) -> Seq<
    (Seq<char>, Expected),
> {
    and_maybe(
        and_maybe(
            Seq::empty(),
            DURATION_KEY@,
            match duration {
                Some(d) => Some(Expected::Number(d as u64)),
                None => None,
            },
        ),
        POSITION_KEY@,
        number_of(position),
    )
}

} // verus!
