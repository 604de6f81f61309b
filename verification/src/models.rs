//! Records of the playlist manager: what the persistence collaborator stores and
//! what the command layer hands to the user interface.
//!
//! They are plain data. Timestamps are text in RFC 3339 form, as stored.

use vstd::prelude::*;

verus! {

/// A named list of videos.
#[derive(Debug, Clone)]
pub struct Playlist {
    pub id: i64,
    pub name: String,
    pub description: Option<String>,
    pub custom_ascii: Option<String>,
    pub custom_thumbnail_url: Option<String>,
    pub created_at: String,
    pub updated_at: String,
}

/// One video of a playlist, at a position counted within that playlist.
#[derive(Debug, Clone)]
pub struct PlaylistItem {
    pub id: i64,
    pub playlist_id: i64,
    pub video_url: String,
    pub video_id: String,
    pub title: Option<String>,
    pub thumbnail_url: Option<String>,
    pub position: i32,
    pub added_at: String,
    pub is_local: bool,
    pub author: Option<String>,
    pub view_count: Option<String>,
    pub published_at: Option<String>,
}

/// What is needed to create a playlist.
#[derive(Debug)]
pub struct CreatePlaylistRequest {
    pub name: String,
    pub description: Option<String>,
}

/// The fields of a playlist to replace; an absent field is left as it is.
#[derive(Debug)]
pub struct UpdatePlaylistRequest {
    pub id: i64,
    pub name: Option<String>,
    pub description: Option<String>,
    pub custom_ascii: Option<String>,
    pub custom_thumbnail_url: Option<String>,
}

/// A video to append to a playlist.
#[derive(Debug)]
pub struct AddVideoToPlaylistRequest {
    pub playlist_id: i64,
    pub video_url: String,
    pub video_id: String,
    pub title: Option<String>,
    pub thumbnail_url: Option<String>,
    pub author: Option<String>,
    pub view_count: Option<String>,
    pub published_at: Option<String>,
}

/// A move of one item to a new position within its playlist.
#[derive(Debug)]
pub struct ReorderPlaylistItemRequest {
    pub playlist_id: i64,
    pub item_id: i64,
    pub new_position: i32,
}

/// The tag that puts one item of a playlist into a coloured folder.
#[derive(Debug, Clone)]
pub struct VideoFolderAssignment {
    pub id: i64,
    pub playlist_id: i64,
    pub item_id: i64,
    pub folder_color: String,
    pub created_at: String,
}

/// A coloured folder of a playlist with the number of its videos and the one
/// that comes first by position.
#[derive(Debug, Clone)]
pub struct FolderWithVideos {
    pub playlist_id: i64,
    pub playlist_name: String,
    pub folder_color: String,
    pub video_count: i32,
    pub first_video: Option<PlaylistItem>,
}

/// One entry of the watch history.
#[derive(Debug, Clone)]
pub struct WatchHistory {
    pub id: i64,
    pub video_url: String,
    pub video_id: String,
    pub title: Option<String>,
    pub thumbnail_url: Option<String>,
    pub watched_at: String,
}

/// A playlist's size with its first video and the one watched most recently.
#[derive(Debug, Clone)]
pub struct PlaylistMetadata {
    pub playlist_id: i64,
    pub count: i32,
    pub first_video: Option<PlaylistItem>,
    pub recent_video: Option<PlaylistItem>,
}

} // verus!
