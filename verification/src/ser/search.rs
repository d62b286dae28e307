//! The answer to a search of videos.
use vstd::prelude::*;
use crate::dates::Timestamp;
use crate::ser::common::{Channel, VideoState};

verus! {

/// A number (when there is one) and its label.
#[derive(Debug, Clone)]
pub struct IdentifiedLabel {
    pub id: Option<u64>,
    pub label: String,
}

/// A language: its code (when there is one) and its label.
#[derive(Debug, Clone)]
pub struct Language {
    pub id: Option<String>,
    pub label: String,
}

/// A change of privacy planned for a video.
#[derive(Debug, Clone)]
pub struct ScheduledUpdate {
    pub privacy: i64,
    pub updated_at: String,
}

/// Where the user stopped watching a video.
#[derive(Debug, Clone)]
pub struct UserHistory {
    pub current_time: i64,
}

/// A video found by a search.
#[derive(Debug, Clone)]
pub struct Video {
    pub uuid: String,
    pub created_at: Timestamp,
    pub published_at: Timestamp,
    pub description: Option<String>,
    pub duration: u64,
    pub is_local: bool,
    pub name: String,
    pub thumbnail_path: Option<String>,
    pub preview_path: Option<String>,
    pub embed_path: Option<String>,
    pub views: u64,
    pub likes: u64,
    pub dislikes: u64,
    pub nsfw: bool,
    pub is_live: bool,
    pub state: VideoState,
    pub account: Channel,
    pub channel: Channel,
    pub category: IdentifiedLabel,
    pub licence: IdentifiedLabel,
    pub language: Language,
    pub privacy: IdentifiedLabel,
}

/// A page of videos and the number of videos found.
#[derive(Debug, Clone)]
pub struct Videos {
    pub total: usize,
    pub data: Vec<Video>,
}

} // verus!
