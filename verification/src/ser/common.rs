//! Parts shared by several answers.
use vstd::prelude::*;

verus! {

/// The picture of an account or a channel.
#[derive(Debug, Clone)]
pub struct Avatar {
    pub path: String,
    pub created_at: Option<String>,
    pub updated_at: Option<String>,
}

/// The owner of a video, as an answer describes it.
#[derive(Debug, Clone)]
pub struct Channel {
    pub id: i64,
    pub name: String,
    pub display_name: String,
    pub url: Option<String>,
    pub host: String,
    pub avatar: Option<Avatar>,
}

/// The state of a video: a number and its label.
#[derive(Debug, Clone, Default)]
pub struct VideoState {
    pub id: u16,
    pub label: String,
}

} // verus!
