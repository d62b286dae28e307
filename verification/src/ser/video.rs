//! The answer about a single video.
use vstd::prelude::*;
use crate::dates::Timestamp;
use crate::ser::common::{Channel, VideoState};
use crate::ser::search::{IdentifiedLabel, Language};

verus! {

/// The full description of a video.
#[derive(Debug, Clone)]
pub struct Description {
    pub description: Option<String>,
}

/// A video with its files.
#[derive(Debug, Clone)]
pub struct Video {
    pub uuid: String,
    pub created_at: Timestamp,
    pub published_at: Timestamp,
    pub description: Option<String>,
    pub duration: u64,
    pub is_local: bool,
    pub name: String,
    pub thumbnail_path: String,
    pub preview_path: String,
    pub embed_path: String,
    pub views: u64,
    pub likes: u64,
    pub dislikes: u64,
    pub nsfw: bool,
    pub is_live: bool,
    pub state: VideoState,
    pub account: Channel,
    pub channel: Channel,
    pub category: IdentifiedLabel,
    pub licence: IdentifiedLabel,
    pub language: Language,
    pub privacy: IdentifiedLabel,
    pub files: Vec<File>,
    pub streaming_playlists: Vec<StreamingPlaylist>,
}

/// The resolution of a file: its number and label.
#[derive(Debug, Clone)]
pub struct Resolution {
    pub id: u64,
    pub label: String,
}

/// A file of a video, in one resolution.
#[derive(Debug, Clone)]
pub struct File {
    pub magnet_uri: String,
    pub resolution: Resolution,
    pub size: u64,
    pub torrent_url: String,
    pub torrent_download_url: String,
    pub file_url: String,
    pub file_download_url: String,
}

/// A stream of a video.
#[derive(Debug, Clone)]
pub struct StreamingPlaylist {
    pub id: u64,
    pub playlist_url: String,
}

} // verus!
