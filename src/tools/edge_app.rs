//! Edge apps, their settings and their installations.
use crate::authentication::Authentication;
use crate::commands::{get_request, request_is, resource_url_of, ResourceRequest, Verb};
use crate::tools::with_two_ids;
use vstd::prelude::*;

verus! {

/// Every edge app that is not deleted, with its id and name.
pub const EDGE_APPS_LISTING: &'static str = "v4/edge-apps?select=id,name&deleted=eq.false";

pub const SETTINGS_OF_APP: &'static str = "v4.1/edge-apps/settings?app_id=eq.";

/// The properties of a setting that are listed, and their order.
pub const SETTINGS_SELECTION: &'static str =
    "&select=name,type,default_value,optional,title,help_text&order=name.asc";

pub const INSTALLATIONS_OF_APP: &'static str =
    "v4.1/edge-apps/installations?select=id,name&app_id=eq.";

/// The edge app operations.
pub struct EdgeAppTools;

impl EdgeAppTools {
    /// Lists every edge app that is not deleted.
    pub fn list_request(auth: &Authentication) -> (r: ResourceRequest)
        ensures
            request_is(r, Verb::Get, resource_url_of(auth.config.url@, EDGE_APPS_LISTING@), false),
            r.payload is None,
    {
        get_request(auth, EDGE_APPS_LISTING)
    }

    /// Lists the settings of the edge app `app_uuid`, by name.
    pub fn list_settings_request(auth: &Authentication, app_uuid: &str) -> (r: ResourceRequest)
        ensures
            request_is(
                r,
                Verb::Get,
                resource_url_of(auth.config.url@, SETTINGS_OF_APP@ + app_uuid@ + SETTINGS_SELECTION@),
                false,
            ),
            r.payload is None,
    {
        let endpoint = with_two_ids(SETTINGS_OF_APP, app_uuid, SETTINGS_SELECTION, "", "");
        proof {
            reveal_strlit("");
            assert(endpoint@ =~= SETTINGS_OF_APP@ + app_uuid@ + SETTINGS_SELECTION@);
        }
        get_request(auth, endpoint.as_str())
    }

    /// Lists the installations of the edge app `app_uuid`.
    pub fn list_instances_request(auth: &Authentication, app_uuid: &str) -> (r: ResourceRequest)
        ensures
            request_is(
                r,
                Verb::Get,
                resource_url_of(auth.config.url@, INSTALLATIONS_OF_APP@ + app_uuid@),
                false,
            ),
            r.payload is None,
    {
        let endpoint = crate::tools::with_id(INSTALLATIONS_OF_APP, app_uuid);
        get_request(auth, endpoint.as_str())
    }
}

} // verus!
