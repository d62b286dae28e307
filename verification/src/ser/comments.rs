//! The answer about the comments of a video.
use vstd::prelude::*;
use crate::dates::Timestamp;
use crate::ser::common::Channel;

verus! {

/// A comment, which may have been deleted.
#[derive(Debug, Clone)]
pub struct Comment {
    pub id: u64,
    pub url: Option<String>,
    pub text: String,
    pub thread_id: i64,
    pub video_id: i64,
    pub created_at: Timestamp,
    pub deleted: Option<String>,
    pub is_deleted: bool,
    pub account: Option<Channel>,
}

/// A page of comments and the number of comments.
#[derive(Debug, Clone)]
pub struct Comments {
    pub total: usize,
    pub data: Vec<Comment>,
}

} // verus!
