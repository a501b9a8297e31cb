//! Screens.
use crate::authentication::Authentication;
use crate::commands::{get_request, request_is, resource_url_of, ResourceRequest, Verb};
use crate::tools::with_id;
use vstd::prelude::*;

verus! {

pub const SCREENS_ENDPOINT: &'static str = "v4/screens";

pub const SCREEN_BY_ID: &'static str = "v4/screens?id=eq.";

/// The screen operations.
pub struct ScreenTools;

impl ScreenTools {
    /// Lists every screen.
    pub fn list_request(auth: &Authentication) -> (r: ResourceRequest)
        ensures
            request_is(r, Verb::Get, resource_url_of(auth.config.url@, SCREENS_ENDPOINT@), false),
            r.payload is None,
    {
        get_request(auth, SCREENS_ENDPOINT)
    }

    /// Fetches the screen `uuid`.
    pub fn get_request(auth: &Authentication, uuid: &str) -> (r: ResourceRequest)
        ensures
            request_is(
                r,
                Verb::Get,
                resource_url_of(auth.config.url@, SCREEN_BY_ID@ + uuid@),
                false,
            ),
            r.payload is None,
    {
        let endpoint = with_id(SCREEN_BY_ID, uuid);
        get_request(auth, endpoint.as_str())
    }
}

} // verus!
