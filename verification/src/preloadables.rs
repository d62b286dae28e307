//! What the lists of videos load, page by page.
use vstd::prelude::*;
use crate::api::instance::{Instance, Request, RequestView, page_pairs, local_pairs, api_host_of};
use crate::utils::{host_from_handle, host_from_handle_spec};

verus! {

broadcast use vstd::string::group_string_axioms;

/// Which videos a list shows.
#[derive(Debug, Clone)]
pub enum VideoMode {
    /// The videos found for a query.
    Search(String),
    /// The videos of a channel, by its handle.
    Channel(String),
    /// The trending videos.
    Trending,
}

/// The host of a channel from its handle; empty when the handle has none.
pub open spec fn handle_host(handle: Seq<char>) -> Seq<char> {
    match host_from_handle_spec(handle) {
        Some(h) => h,
        None => Seq::empty(),
    }
}

impl VideoMode {
    /// The name of the list.
    pub fn name(&self) -> (r: &'static str)
        ensures
            r@ == (match self {
                VideoMode::Search(_) => "Video search"@,
                VideoMode::Trending => "Trending video"@,
                VideoMode::Channel(_) => "Channel videos"@,
            }),
    {
        match self {
            VideoMode::Search(_) => "Video search",
            VideoMode::Trending => "Trending video",
            VideoMode::Channel(_) => "Channel videos",
        }
    }

    /// The request of `step` videos of the list from the `offset`-th, on `instance`.
    pub fn request(&self, instance: &Instance, step: usize, offset: usize) -> (r: Request)
        ensures
            r@ == (match self {
                VideoMode::Search(q) => RequestView {
                    url: instance@.host + "/api/v1/search/videos"@,
                    query: seq![("search"@, q@)] + page_pairs(step as nat, offset as nat) + seq![
                        ("nsfw"@, instance@.include_nsfw),
                    ] + local_pairs(instance@.local),
                    user_agent: instance@.user_agent,
                },
                VideoMode::Channel(h) => RequestView {
                    url: api_host_of(instance@, handle_host(h@)) + "/api/v1/video-channels/"@ + h@ + "/videos"@,
                    query: seq![("nsfw"@, instance@.include_nsfw)] + page_pairs(step as nat, offset as nat)
                        + local_pairs(instance@.local),
                    user_agent: Some(crate::api::instance::CHANNEL_USER_AGENT@),
                },
                VideoMode::Trending => RequestView {
                    url: instance@.host + "/api/v1/videos"@,
                    query: seq![("sort"@, "-trending"@)] + page_pairs(step as nat, offset as nat) + seq![
                        ("nsfw"@, instance@.include_nsfw),
                    ] + local_pairs(instance@.local),
                    user_agent: instance@.user_agent,
                },
            }),
    {
        match self {
            VideoMode::Search(q) => instance.search_videos_request(q.as_str(), step, offset),
            VideoMode::Channel(handle) => {
                let host = match host_from_handle(handle.as_str()) {
                    Ok(h) => h,
                    Err(_) => String::new(),
                };
                instance.channel_videos_request(host.as_str(), handle.as_str(), step, offset)
            },
            VideoMode::Trending => instance.trending_videos_request(step, offset),
        }
    }
}

} // verus!
