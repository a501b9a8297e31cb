//! Asset groups, the folders that assets are organised in.
use crate::authentication::Authentication;
use crate::commands::{
    delete_request, get_request, is_text_field, patch_request, post_request, request_is,
    resource_url_of, Field, Payload, ResourceRequest, Verb,
};
use crate::tools::{receipt, text_field, with_id, ID_KEY, STATUS_KEY};
use vstd::prelude::*;

verus! {

pub const ASSET_GROUPS_ENDPOINT: &'static str = "v4/asset-groups";

pub const ASSET_GROUP_BY_ID: &'static str = "v4/asset-groups?id=eq.";

pub const TITLE_KEY: &'static str = "title";

pub const DELETED: &'static str = "deleted";

/// The asset group operations.
pub struct AssetGroupTools;

impl AssetGroupTools {
    /// Lists every asset group.
    pub fn list_request(auth: &Authentication) -> (r: ResourceRequest)
        ensures
            request_is(
                r,
                Verb::Get,
                resource_url_of(auth.config.url@, ASSET_GROUPS_ENDPOINT@),
                false,
            ),
            r.payload is None,
    {
        get_request(auth, ASSET_GROUPS_ENDPOINT)
    }

    /// Creates an asset group titled `title`.
    pub fn create_request(auth: &Authentication, title: &str) -> (r: ResourceRequest)
        ensures
            request_is(
                r,
                Verb::Post,
                resource_url_of(auth.config.url@, ASSET_GROUPS_ENDPOINT@),
                true,
            ),
            r.payload matches Some(Payload::Record(fields)) && fields@.len() == 1
                && is_text_field(fields@[0], TITLE_KEY@, title@),
    {
        post_request(auth, ASSET_GROUPS_ENDPOINT, Payload::Record(vec![text_field(TITLE_KEY, title)]))
    }

    /// Retitles the asset group `uuid`.
    pub fn update_request(auth: &Authentication, uuid: &str, title: &str) -> (r: ResourceRequest)
        ensures
            request_is(
                r,
                Verb::Patch,
                resource_url_of(auth.config.url@, ASSET_GROUP_BY_ID@ + uuid@),
                true,
            ),
            r.payload matches Some(Payload::Record(fields)) && fields@.len() == 1
                && is_text_field(fields@[0], TITLE_KEY@, title@),
    {
        let endpoint = with_id(ASSET_GROUP_BY_ID, uuid);
        patch_request(auth, endpoint.as_str(), Payload::Record(vec![text_field(TITLE_KEY, title)]))
    }

    /// Removes the asset group `uuid`, and with it the assets it holds.
    pub fn delete_request(auth: &Authentication, uuid: &str) -> (r: ResourceRequest)
        ensures
            request_is(
                r,
                Verb::Delete,
                resource_url_of(auth.config.url@, ASSET_GROUP_BY_ID@ + uuid@),
                false,
            ),
            r.payload is None,
    {
        let endpoint = with_id(ASSET_GROUP_BY_ID, uuid);
        delete_request(auth, endpoint.as_str())
    }

    /// The confirmation of a removal.
    pub fn delete_receipt(uuid: &str) -> (r: Vec<Field>)
        ensures
            r@.len() == 2,
            is_text_field(r@[0], STATUS_KEY@, DELETED@),
            is_text_field(r@[1], ID_KEY@, uuid@),
    {
        receipt(DELETED, ID_KEY, uuid)
    }
}

} // verus!
