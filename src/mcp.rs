//! The parameter records that the assistant-facing tools take.
use vstd::prelude::*;

verus! {

/// A resource named by its UUID.
#[derive(Clone, Debug)]
pub struct UuidParam {
    pub uuid: String,
}

/// An asset to create from a URL.
#[derive(Clone, Debug)]
pub struct AssetCreateParam {
    pub title: String,
    pub source_url: String,
}

/// The properties of an asset to change; `headers` is JSON text.
#[derive(Clone, Debug)]
pub struct AssetUpdateParam {
    pub uuid: String,
    pub title: Option<String>,
    pub js_injection: Option<String>,
    pub headers: Option<String>,
}

/// A title.
#[derive(Clone, Debug)]
pub struct TitleParam {
    pub title: String,
}

/// A new title for an asset group.
#[derive(Clone, Debug)]
pub struct AssetGroupUpdateParam {
    pub uuid: String,
    pub title: String,
}

/// A playlist to create.
#[derive(Clone, Debug)]
pub struct PlaylistCreateParam {
    pub title: String,
    pub predicate: Option<String>,
    pub priority: Option<bool>,
    pub is_enabled: Option<bool>,
}

/// The properties of a playlist to change.
#[derive(Clone, Debug)]
pub struct PlaylistUpdateParam {
    pub uuid: String,
    pub title: Option<String>,
    pub predicate: Option<String>,
    pub priority: Option<bool>,
    pub is_enabled: Option<bool>,
}

/// An asset to add to a playlist, for `duration` seconds.
#[derive(Clone, Debug)]
pub struct PlaylistItemCreateParam {
    pub playlist_uuid: String,
    pub asset_uuid: String,
    pub duration: u32,
    pub position: Option<u64>,
}

/// The duration or position of a playlist item to change.
#[derive(Clone, Debug)]
pub struct PlaylistItemUpdateParam {
    pub playlist_uuid: String,
    pub item_uuid: String,
    pub duration: Option<u32>,
    pub position: Option<u64>,
}

/// A playlist item to remove.
#[derive(Clone, Debug)]
pub struct PlaylistItemDeleteParam {
    pub playlist_uuid: String,
    pub item_uuid: String,
}

/// A name.
#[derive(Clone, Debug)]
pub struct NameParam {
    pub name: String,
}

/// A new name for a label.
#[derive(Clone, Debug)]
pub struct LabelUpdateParam {
    pub uuid: String,
    pub name: String,
}

/// A label and a screen.
#[derive(Clone, Debug)]
pub struct LabelScreenParam {
    pub label_uuid: String,
    pub screen_uuid: String,
}

/// A label and a playlist.
#[derive(Clone, Debug)]
pub struct LabelPlaylistParam {
    pub label_uuid: String,
    pub playlist_uuid: String,
}

/// A playlist and a team.
#[derive(Clone, Debug)]
pub struct SharedPlaylistParam {
    pub playlist_uuid: String,
    pub team_uuid: String,
}

/// An edge app named by its UUID.
#[derive(Clone, Debug)]
pub struct AppUuidParam {
    pub app_uuid: String,
}

} // verus!
