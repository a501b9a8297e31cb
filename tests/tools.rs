use screenly_core::authentication::authorization_value;
use screenly_core::commands::{
    delete_outcome, get_outcome, patch_outcome, post_outcome, render, Field, FieldValue,
    Payload, ResourceRequest, Verb,
};
use screenly_core::tools::asset::AssetTools;
use screenly_core::tools::asset_group::AssetGroupTools;
use screenly_core::tools::edge_app::EdgeAppTools;
use screenly_core::tools::label::LabelTools;
use screenly_core::tools::playlist::PlaylistTools;
use screenly_core::tools::playlist_item::{PlaylistItemTools, PositionPlan};
use screenly_core::tools::screen::ScreenTools;
use screenly_core::tools::shared_playlist::SharedPlaylistTools;
use screenly_core::{Authentication, Config};

const BASE: &str = "http://127.0.0.1:5000";

fn setup_auth() -> Authentication {
    assert_eq!(authorization_value("test_token"), "Token test_token");
    Authentication::new_with_config(Config::new(BASE.to_string()))
}

fn url(endpoint: &str) -> String {
    format!("{}/{}", BASE, endpoint)
}

fn fetched(req: &ResourceRequest, body: &str) -> String {
    assert_eq!(req.verb, Verb::Get);
    render(&get_outcome(200, body).unwrap()).unwrap()
}

fn created(req: &ResourceRequest, body: &str) -> String {
    assert_eq!(req.verb, Verb::Post);
    assert!(req.prefer_representation);
    render(&post_outcome(201, body).unwrap()).unwrap()
}

fn text_fields(payload: &Option<Payload>) -> Vec<(String, String)> {
    match payload {
        Some(Payload::Record(fields)) => fields
            .iter()
            .map(|f| match &f.value {
                FieldValue::Text(t) => (f.name.clone(), t.clone()),
                other => panic!("unexpected value {:?}", other),
            })
            .collect(),
        other => panic!("unexpected payload {:?}", other),
    }
}

fn receipt_text(fields: &[Field]) -> String {
    fields
        .iter()
        .map(|f| match &f.value {
            FieldValue::Text(t) => format!("{}={}", f.name, t),
            other => panic!("unexpected value {:?}", other),
        })
        .collect::<Vec<_>>()
        .join(",")
}

fn pairs(items: &[(&str, &str)]) -> Vec<(String, String)> {
    items.iter().map(|(k, v)| (k.to_string(), v.to_string())).collect()
}

// ============ SCREENS ============

#[test]
fn test_screen_list() {
    let auth = setup_auth();
    let req = ScreenTools::list_request(&auth);
    assert_eq!(req.url, url("v4/screens"));
    let body = fetched(&req, r#"[{"id": "screen-1", "name": "Test Screen"}]"#);
    assert!(body.contains("screen-1"));
    assert!(body.contains("Test Screen"));
}

#[test]
fn test_screen_get() {
    let auth = setup_auth();
    let req = ScreenTools::get_request(&auth, "screen-uuid");
    assert_eq!(req.url, url("v4/screens?id=eq.screen-uuid"));
    let body = fetched(&req, r#"[{"id": "screen-uuid", "name": "My Screen"}]"#);
    assert!(body.contains("screen-uuid"));
}

// ============ ASSETS ============

#[test]
fn test_asset_list() {
    let auth = setup_auth();
    let req = AssetTools::list_request(&auth);
    assert_eq!(req.url, url("v4/assets?type=neq.edge-app-file"));
    let body = fetched(&req, r#"[{"id": "asset-1", "title": "Test Asset"}]"#);
    assert!(body.contains("asset-1"));
}

#[test]
fn test_asset_get() {
    let auth = setup_auth();
    let req = AssetTools::get_request(&auth, "asset-uuid");
    assert_eq!(req.url, url("v4/assets?id=eq.asset-uuid"));
    let body = fetched(&req, r#"[{"id": "asset-uuid", "title": "My Asset"}]"#);
    assert!(body.contains("asset-uuid"));
}

#[test]
fn test_asset_create() {
    let auth = setup_auth();
    let req = AssetTools::create_request(&auth, "New Asset", "https://example.com");
    assert_eq!(req.url, url("v4/assets"));
    assert_eq!(
        text_fields(&req.payload),
        pairs(&[("title", "New Asset"), ("source_url", "https://example.com")])
    );
    let body = created(&req, r#"{"id": "new-asset-id", "title": "New Asset"}"#);
    assert!(body.contains("new-asset-id"));
}

#[test]
fn test_asset_update() {
    let auth = setup_auth();
    let req = AssetTools::update_request(
        &auth,
        "asset-uuid",
        Some("Updated Title".to_string()),
        None,
        None,
    )
    .unwrap();
    assert_eq!(req.verb, Verb::Patch);
    assert_eq!(req.url, url("v4/assets?id=eq.asset-uuid"));
    assert_eq!(text_fields(&req.payload), pairs(&[("title", "Updated Title")]));
    assert!(patch_outcome(200).is_ok());
}

#[test]
fn test_asset_update_no_fields() {
    let auth = setup_auth();
    let result = AssetTools::update_request(&auth, "asset-uuid", None, None, None);
    assert!(result.is_err());
    assert!(result.unwrap_err().contains("No fields to update"));
}

#[test]
fn asset_update_parses_headers() {
    let auth = setup_auth();
    let req = AssetTools::update_request(&auth, "a", None, None, Some(r#"{"X-Key": "v"}"#.to_string()))
        .unwrap();
    match req.payload {
        Some(Payload::Record(fields)) => {
            assert_eq!(fields.len(), 1);
            assert_eq!(fields[0].name, "headers");
            match &fields[0].value {
                FieldValue::Json(v) => assert_eq!(v["X-Key"], "v"),
                other => panic!("unexpected {:?}", other),
            }
        }
        other => panic!("unexpected {:?}", other),
    }
}

#[test]
fn asset_update_refuses_malformed_headers() {
    let auth = setup_auth();
    let r = AssetTools::update_request(&auth, "a", Some("t".to_string()), None, Some("{".to_string()));
    assert!(r.unwrap_err().starts_with("Invalid headers JSON: "));
}

#[test]
fn test_asset_delete() {
    let auth = setup_auth();
    let req = AssetTools::delete_request(&auth, "asset-uuid");
    assert_eq!(req.verb, Verb::Delete);
    assert_eq!(req.url, url("v4/assets?id=eq.asset-uuid"));
    assert!(delete_outcome(204).is_ok());
    let receipt = receipt_text(&AssetTools::delete_receipt("asset-uuid"));
    assert!(receipt.contains("deleted"));
    assert_eq!(receipt, "status=deleted,id=asset-uuid");
}

// ============ ASSET GROUPS ============

#[test]
fn test_asset_group_list() {
    let auth = setup_auth();
    let req = AssetGroupTools::list_request(&auth);
    assert_eq!(req.url, url("v4/asset-groups"));
    let body = fetched(&req, r#"[{"id": "group-1", "title": "Test Group"}]"#);
    assert!(body.contains("group-1"));
}

#[test]
fn test_asset_group_create() {
    let auth = setup_auth();
    let req = AssetGroupTools::create_request(&auth, "New Group");
    assert_eq!(req.url, url("v4/asset-groups"));
    assert_eq!(text_fields(&req.payload), pairs(&[("title", "New Group")]));
    let body = created(&req, r#"{"id": "new-group-id", "title": "New Group"}"#);
    assert!(body.contains("new-group-id"));
}

#[test]
fn test_asset_group_update() {
    let auth = setup_auth();
    let req = AssetGroupTools::update_request(&auth, "group-uuid", "Updated Group");
    assert_eq!(req.verb, Verb::Patch);
    assert_eq!(req.url, url("v4/asset-groups?id=eq.group-uuid"));
    assert_eq!(text_fields(&req.payload), pairs(&[("title", "Updated Group")]));
    assert!(patch_outcome(200).is_ok());
}

#[test]
fn test_asset_group_delete() {
    let auth = setup_auth();
    let req = AssetGroupTools::delete_request(&auth, "group-uuid");
    assert_eq!(req.verb, Verb::Delete);
    assert_eq!(req.url, url("v4/asset-groups?id=eq.group-uuid"));
    assert!(delete_outcome(204).is_ok());
    assert_eq!(
        receipt_text(&AssetGroupTools::delete_receipt("group-uuid")),
        "status=deleted,id=group-uuid"
    );
}

// ============ PLAYLISTS ============

#[test]
fn test_playlist_list() {
    let auth = setup_auth();
    let req = PlaylistTools::list_request(&auth);
    assert_eq!(req.url, url("v4/playlists"));
    let body = fetched(&req, r#"[{"id": "playlist-1", "title": "Test Playlist"}]"#);
    assert!(body.contains("playlist-1"));
}

#[test]
fn test_playlist_create() {
    let auth = setup_auth();
    let req = PlaylistTools::create_request(&auth, "New Playlist", None, None, None);
    assert_eq!(req.url, url("v4/playlists"));
    match &req.payload {
        Some(Payload::Record(fields)) => {
            assert_eq!(fields.len(), 5);
            assert_eq!(fields[0].value, FieldValue::Text("New Playlist".to_string()));
            assert_eq!(fields[1].value, FieldValue::Text("TRUE".to_string()));
            assert_eq!(fields[2].value, FieldValue::Flag(false));
            assert_eq!(fields[3].value, FieldValue::Flag(true));
            assert_eq!(fields[4].name, "transitions");
            assert_eq!(fields[4].value, FieldValue::Flag(true));
        }
        other => panic!("unexpected {:?}", other),
    }
    let body = created(&req, r#"{"id": "new-playlist-id", "title": "New Playlist"}"#);
    assert!(body.contains("new-playlist-id"));
}

#[test]
fn test_playlist_update() {
    let auth = setup_auth();
    let req = PlaylistTools::update_request(
        &auth,
        "playlist-uuid",
        Some("Updated".to_string()),
        None,
        None,
        None,
    )
    .unwrap();
    assert_eq!(req.verb, Verb::Patch);
    assert_eq!(req.url, url("v4/playlists?id=eq.playlist-uuid"));
    assert_eq!(text_fields(&req.payload), pairs(&[("title", "Updated")]));
}

#[test]
fn playlist_update_sends_given_fields_in_order() {
    let auth = setup_auth();
    let req = PlaylistTools::update_request(&auth, "p", None, Some("FALSE".to_string()), None, Some(false))
        .unwrap();
    match req.payload {
        Some(Payload::Record(fields)) => {
            assert_eq!(fields.len(), 2);
            assert_eq!(fields[0].name, "predicate");
            assert_eq!(fields[1].name, "is_enabled");
            assert_eq!(fields[1].value, FieldValue::Flag(false));
        }
        other => panic!("unexpected {:?}", other),
    }
}

#[test]
fn test_playlist_update_no_fields() {
    let auth = setup_auth();
    let result = PlaylistTools::update_request(&auth, "playlist-uuid", None, None, None, None);
    assert!(result.is_err());
}

#[test]
fn test_playlist_delete() {
    let auth = setup_auth();
    let req = PlaylistTools::delete_request(&auth, "playlist-uuid");
    assert_eq!(req.verb, Verb::Delete);
    assert_eq!(req.url, url("v4/playlists?id=eq.playlist-uuid"));
    assert!(delete_outcome(204).is_ok());
}

// ============ PLAYLIST ITEMS ============

#[test]
fn test_playlist_item_list() {
    let auth = setup_auth();
    let req = PlaylistItemTools::list_request(&auth, "playlist-uuid");
    assert_eq!(
        req.url,
        url("v4/playlist-items?playlist_id=eq.playlist-uuid&order=position.asc")
    );
    let body = fetched(&req, r#"[{"id": "item-1", "asset_id": "asset-1"}]"#);
    assert!(body.contains("item-1"));
}

#[test]
fn test_playlist_item_create() {
    let auth = setup_auth();
    let plan = PlaylistItemTools::position_plan(&auth, "playlist-uuid", None);
    let lookup = match plan {
        PositionPlan::LookUp(req) => req,
        other => panic!("unexpected {:?}", other),
    };
    assert_eq!(
        lookup.url,
        url("v4/playlist-items?select=position&playlist_id=eq.playlist-uuid&order=position.desc&limit=1")
    );
    let listing = get_outcome(200, "[]").unwrap();
    let latest = PlaylistItemTools::latest_position(&listing);
    assert_eq!(latest, None);
    let position = PlaylistItemTools::allocate_position(None, latest).unwrap();
    assert_eq!(position, 100000);
    let req = PlaylistItemTools::create_request(&auth, "playlist-uuid", "asset-uuid", 30, position);
    assert_eq!(req.url, url("v4/playlist-items"));
    match &req.payload {
        Some(Payload::Records(rows)) => {
            assert_eq!(rows.len(), 1);
            assert_eq!(rows[0][0].value, FieldValue::Text("playlist-uuid".to_string()));
            assert_eq!(rows[0][1].value, FieldValue::Text("asset-uuid".to_string()));
            assert_eq!(rows[0][2].value, FieldValue::Number(30));
            assert_eq!(rows[0][3].value, FieldValue::Number(100000));
        }
        other => panic!("unexpected {:?}", other),
    }
    let body = created(&req, r#"[{"id": "new-item-id", "playlist_id": "playlist-uuid"}]"#);
    assert!(body.contains("new-item-id"));
}

#[test]
fn playlist_item_appended_after_latest() {
    let listing = get_outcome(200, r#"[{"position": 250000}]"#).unwrap();
    let latest = PlaylistItemTools::latest_position(&listing);
    assert_eq!(latest, Some(250000));
    assert_eq!(PlaylistItemTools::allocate_position(None, latest).unwrap(), 350000);
}

#[test]
fn playlist_item_unreadable_position_counts_as_empty() {
    let listing = get_outcome(200, r#"[{"position": "high"}]"#).unwrap();
    assert_eq!(PlaylistItemTools::latest_position(&listing), None);
    let listing = get_outcome(200, r#"{"position": 5}"#).unwrap();
    assert_eq!(PlaylistItemTools::latest_position(&listing), None);
}

#[test]
fn playlist_item_explicit_position_skips_lookup() {
    let auth = setup_auth();
    assert_eq!(
        PlaylistItemTools::position_plan(&auth, "p", Some(42)),
        PositionPlan::Given(42)
    );
    assert_eq!(PlaylistItemTools::allocate_position(Some(42), Some(900000)).unwrap(), 42);
}

#[test]
fn playlist_item_position_exhausted() {
    assert!(PlaylistItemTools::appended_position(Some(u64::MAX)).is_err());
    assert_eq!(
        PlaylistItemTools::appended_position(Some(u64::MAX - 100000)).unwrap(),
        u64::MAX
    );
}

#[test]
fn test_playlist_item_update() {
    let auth = setup_auth();
    let req = PlaylistItemTools::update_request(&auth, "playlist-uuid", "item-uuid", Some(60), None)
        .unwrap();
    assert_eq!(req.verb, Verb::Patch);
    assert_eq!(
        req.url,
        url("v4/playlist-items?playlist_id=eq.playlist-uuid&id=eq.item-uuid")
    );
    match &req.payload {
        Some(Payload::Record(fields)) => {
            assert_eq!(fields.len(), 1);
            assert_eq!(fields[0].name, "duration");
            assert_eq!(fields[0].value, FieldValue::Number(60));
        }
        other => panic!("unexpected {:?}", other),
    }
    assert!(PlaylistItemTools::update_request(&auth, "p", "i", None, None).is_err());
}

#[test]
fn test_playlist_item_delete() {
    let auth = setup_auth();
    let req = PlaylistItemTools::delete_request(&auth, "playlist-uuid", "item-uuid");
    assert_eq!(req.verb, Verb::Delete);
    assert_eq!(
        req.url,
        url("v4/playlist-items?playlist_id=eq.playlist-uuid&id=eq.item-uuid")
    );
    assert_eq!(
        receipt_text(&PlaylistItemTools::delete_receipt("playlist-uuid", "item-uuid")),
        "status=deleted,playlist_id=playlist-uuid,item_id=item-uuid"
    );
}

// ============ LABELS ============

#[test]
fn test_label_list() {
    let auth = setup_auth();
    let req = LabelTools::list_request(&auth);
    assert_eq!(req.url, url("v4/labels"));
    let body = fetched(&req, r#"[{"id": "label-1", "name": "Test Label"}]"#);
    assert!(body.contains("label-1"));
}

#[test]
fn test_label_create() {
    let auth = setup_auth();
    let req = LabelTools::create_request(&auth, "New Label");
    assert_eq!(req.url, url("v4/labels"));
    assert_eq!(text_fields(&req.payload), pairs(&[("name", "New Label")]));
    let body = created(&req, r#"{"id": "new-label-id", "name": "New Label"}"#);
    assert!(body.contains("new-label-id"));
}

#[test]
fn test_label_update() {
    let auth = setup_auth();
    let req = LabelTools::update_request(&auth, "label-uuid", "Updated Label");
    assert_eq!(req.verb, Verb::Patch);
    assert_eq!(req.url, url("v4/labels?id=eq.label-uuid"));
    assert_eq!(text_fields(&req.payload), pairs(&[("name", "Updated Label")]));
}

#[test]
fn test_label_delete() {
    let auth = setup_auth();
    let req = LabelTools::delete_request(&auth, "label-uuid");
    assert_eq!(req.verb, Verb::Delete);
    assert_eq!(req.url, url("v4/labels?id=eq.label-uuid"));
    assert_eq!(receipt_text(&LabelTools::delete_receipt("label-uuid")), "status=deleted,id=label-uuid");
}

#[test]
fn test_label_link_screen() {
    let auth = setup_auth();
    let req = LabelTools::link_screen_request(&auth, "label-uuid", "screen-uuid");
    assert_eq!(req.url, url("v4/labels/screens"));
    assert_eq!(
        text_fields(&req.payload),
        pairs(&[("label_id", "label-uuid"), ("screen_id", "screen-uuid")])
    );
    assert!(post_outcome(201, "[]").is_ok());
}

#[test]
fn test_label_unlink_screen() {
    let auth = setup_auth();
    let req = LabelTools::unlink_screen_request(&auth, "label-uuid", "screen-uuid");
    assert_eq!(req.verb, Verb::Delete);
    assert_eq!(
        req.url,
        url("v4/labels/screens?label_id=eq.label-uuid&screen_id=eq.screen-uuid")
    );
    assert_eq!(
        receipt_text(&LabelTools::unlink_screen_receipt("label-uuid", "screen-uuid")),
        "status=unlinked,label_id=label-uuid,screen_id=screen-uuid"
    );
}

#[test]
fn test_label_link_playlist() {
    let auth = setup_auth();
    let req = LabelTools::link_playlist_request(&auth, "label-uuid", "playlist-uuid");
    assert_eq!(req.url, url("v4/labels/playlists"));
    assert_eq!(
        text_fields(&req.payload),
        pairs(&[("label_id", "label-uuid"), ("playlist_id", "playlist-uuid")])
    );
}

#[test]
fn test_label_unlink_playlist() {
    let auth = setup_auth();
    let req = LabelTools::unlink_playlist_request(&auth, "label-uuid", "playlist-uuid");
    assert_eq!(req.verb, Verb::Delete);
    assert_eq!(
        req.url,
        url("v4/labels/playlists?label_id=eq.label-uuid&playlist_id=eq.playlist-uuid")
    );
    assert_eq!(
        receipt_text(&LabelTools::unlink_playlist_receipt("label-uuid", "playlist-uuid")),
        "status=unlinked,label_id=label-uuid,playlist_id=playlist-uuid"
    );
}

// ============ SHARED PLAYLISTS ============

#[test]
fn test_shared_playlist_list() {
    let auth = setup_auth();
    let req = SharedPlaylistTools::list_request(&auth);
    assert_eq!(req.url, url("v4/playlists/shared"));
    assert!(fetched(&req, "[]").contains("[]"));
}

#[test]
fn test_shared_playlist_create() {
    let auth = setup_auth();
    let req = SharedPlaylistTools::create_request(&auth, "playlist-uuid", "team-uuid");
    assert_eq!(req.url, url("v4/playlists/shared"));
    assert_eq!(
        text_fields(&req.payload),
        pairs(&[("playlist_id", "playlist-uuid"), ("team_id", "team-uuid")])
    );
}

#[test]
fn test_shared_playlist_delete() {
    let auth = setup_auth();
    let req = SharedPlaylistTools::delete_request(&auth, "playlist-uuid", "team-uuid");
    assert_eq!(req.verb, Verb::Delete);
    assert_eq!(
        req.url,
        url("v4/playlists/shared?playlist_id=eq.playlist-uuid&team_id=eq.team-uuid")
    );
    assert_eq!(
        receipt_text(&SharedPlaylistTools::delete_receipt("playlist-uuid", "team-uuid")),
        "status=unshared,playlist_id=playlist-uuid,team_id=team-uuid"
    );
}

// ============ EDGE APPS ============

#[test]
fn test_edge_app_list() {
    let auth = setup_auth();
    let req = EdgeAppTools::list_request(&auth);
    assert_eq!(req.url, url("v4/edge-apps?select=id,name&deleted=eq.false"));
    let body = fetched(&req, r#"[{"id": "app-1", "name": "Test App"}]"#);
    assert!(body.contains("app-1"));
}

#[test]
fn test_edge_app_list_settings() {
    let auth = setup_auth();
    let req = EdgeAppTools::list_settings_request(&auth, "app-uuid");
    assert_eq!(
        req.url,
        url("v4.1/edge-apps/settings?app_id=eq.app-uuid&select=name,type,default_value,optional,title,help_text&order=name.asc")
    );
    let body = fetched(&req, r#"[{"name": "setting1", "type": "string"}]"#);
    assert!(body.contains("setting1"));
}

#[test]
fn test_edge_app_list_instances() {
    let auth = setup_auth();
    let req = EdgeAppTools::list_instances_request(&auth, "app-uuid");
    assert_eq!(
        req.url,
        url("v4.1/edge-apps/installations?select=id,name&app_id=eq.app-uuid")
    );
    let body = fetched(&req, r#"[{"id": "instance-1", "name": "Test Instance"}]"#);
    assert!(body.contains("instance-1"));
}
