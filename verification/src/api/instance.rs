//! A connection to an instance: the requests it makes.
use vstd::prelude::*;
use std::sync::Arc;
use crate::text::{usize_to_string, decimal};
use crate::utils::{to_https, to_https_spec};
use crate::url_parser::pairs_view;
use crate::config::opt_str;
use crate::utils::reversed;
use crate::ser;
use crate::api::video::{Video, VideoView, search_video_view};
use crate::api::channels::{Channel, ChannelView, channel_view_of};
use crate::api::comments::{Comment, CommentView, comment_of};

verus! {

broadcast use vstd::string::group_string_axioms;

/// A GET request: the address, the pairs of its query in order, and the
/// user agent sent (none when `None`).
#[derive(Debug, Clone)]
pub struct Request {
    pub url: String,
    pub query: Vec<(String, String)>,
    pub user_agent: Option<String>,
}

/// The value of a [`Request`].
pub struct RequestView {
    pub url: Seq<char>,
    pub query: Seq<(Seq<char>, Seq<char>)>,
    pub user_agent: Option<Seq<char>>,
}

impl View for Request {
    type V = RequestView;

    open spec fn view(&self) -> RequestView {
        RequestView { url: self.url@, query: pairs_view(self.query@), user_agent: opt_str(self.user_agent) }
    }
}

/// The user agent that the requests for the videos of a channel send.
pub const CHANNEL_USER_AGENT: &'static str = "peertube-api";

/// Connection to an instance.
///
/// The videos it gives are tied to it, so that one instance answers for them.
#[derive(Debug)]
pub struct Instance {
    host: String,
    user_agent: Option<String>,
    include_nsfw: &'static str,
    local: bool,
    /// The instance is a search engine: what lies outside the search comes
    /// from the hosts of the videos.
    is_search: bool,
}

/// The value of an [`Instance`].
pub struct InstanceView {
    pub host: Seq<char>,
    pub user_agent: Option<Seq<char>>,
    /// The value of the `nsfw` parameter of the searches.
    pub include_nsfw: Seq<char>,
    pub local: bool,
    pub is_search: bool,
}

impl View for Instance {
    type V = InstanceView;

    closed spec fn view(&self) -> InstanceView {
        InstanceView {
            host: self.host@,
            user_agent: opt_str(self.user_agent),
            include_nsfw: self.include_nsfw@,
            local: self.local,
            is_search: self.is_search,
        }
    }
}

/// The value of the `nsfw` parameter.
pub open spec fn nsfw_text(include_nsfw: bool) -> Seq<char> {
    if include_nsfw {
        "both"@
    } else {
        "false"@
    }
}

/// The value of the `nsfw` parameter.
pub fn nsfw_string(include_nsfw: bool) -> (r: &'static str)
    ensures
        r@ == nsfw_text(include_nsfw),
{
    if include_nsfw {
        "both"
    } else {
        "false"
    }
}

/// The pairs that ask for `nb` items from the `offset`-th.
pub open spec fn page_pairs(nb: nat, offset: nat) -> Seq<(Seq<char>, Seq<char>)> {
    seq![("count"@, decimal(nb)), ("start"@, decimal(offset))]
}

/// The pair that keeps to the videos of the instance, when asked.
pub open spec fn local_pairs(local: bool) -> Seq<(Seq<char>, Seq<char>)> {
    if local {
        seq![("filter"@, "local"@)]
    } else {
        Seq::empty()
    }
}

/// The host that answers the requests outside the search.
pub open spec fn api_host_of(i: InstanceView, host: Seq<char>) -> Seq<char> {
    if !i.is_search {
        i.host
    } else {
        to_https_spec(host)
    }
}

/// Appends the pair (`k`, `v`) to a query.
fn push_pair(q: &mut Vec<(String, String)>, k: &str, v: &str)
    ensures
        pairs_view(final(q)@) == pairs_view(old(q)@).push((k@, v@)),
{
    q.push((String::from_str(k), String::from_str(v)));
    assert(pairs_view(q@) =~= pairs_view(old(q)@).push((k@, v@)));
}

/// Appends the pairs that ask for `nb` items from the `offset`-th.
fn push_page(q: &mut Vec<(String, String)>, nb: usize, offset: usize)
    ensures
        pairs_view(final(q)@) == pairs_view(old(q)@) + page_pairs(nb as nat, offset as nat),
{
    let n = usize_to_string(nb);
    let o = usize_to_string(offset);
    push_pair(q, "count", n.as_str());
    push_pair(q, "start", o.as_str());
    assert(pairs_view(q@) =~= pairs_view(old(q)@) + page_pairs(nb as nat, offset as nat));
}

impl Instance {
    /// Connects to `host`.
    pub fn new(host: String, include_nsfw: bool, local: bool, user_agent: Option<String>, is_search: bool) -> (r: Arc<
        Instance,
    >)
        ensures
            (*r)@ == (InstanceView {
                host: host@,
                user_agent: opt_str(user_agent),
                include_nsfw: nsfw_text(include_nsfw),
                local,
                is_search,
            }),
    {
        Arc::new(Instance { host, user_agent, include_nsfw: nsfw_string(include_nsfw), local, is_search })
    }

    /// The address of the instance.
    pub fn host(&self) -> (r: &String)
        ensures
            r@ == self@.host,
    {
        &self.host
    }

    /// The host that answers the requests outside the search: the instance,
    /// unless it is a search engine, then `host` (made an `https` address).
    pub fn api_host(&self, host: &str) -> (r: String)
        ensures
            r@ == api_host_of(self@, host@),
    {
        if !self.is_search {
            self.host.clone()
        } else {
            to_https(host)
        }
    }

    /// The address of the page that lists the videos of `channel`, asked of
    /// the instance that answers for `host`.
    pub fn channel_url(&self, host: &str, channel: &Channel) -> (r: String)
        ensures
            r@ == api_host_of(self@, host@) + "/video-channels/"@ + channel@.name + "@"@ + channel@.host
                + "/videos"@,
    {
        let mut u = self.api_host(host);
        u.append("/video-channels/");
        let h = channel.handle();
        u.append(h.as_str());
        u.append("/videos");
        u
    }

    /// The pair that keeps to the videos of the instance, when asked.
    fn push_local(&self, q: &mut Vec<(String, String)>)
        ensures
            pairs_view(final(q)@) == pairs_view(old(q)@) + local_pairs(self@.local),
    {
        if self.local {
            push_pair(q, "filter", "local");
        }
        assert(pairs_view(q@) =~= pairs_view(old(q)@) + local_pairs(self@.local));
    }

    /// The request of a search of videos for `query`: `nb` videos from the `offset`-th.
    pub fn search_videos_request(&self, query: &str, nb: usize, offset: usize) -> (r: Request)
        ensures
            r@ == (RequestView {
                url: self@.host + "/api/v1/search/videos"@,
                query: seq![("search"@, query@)] + page_pairs(nb as nat, offset as nat) + seq![
                    ("nsfw"@, self@.include_nsfw),
                ] + local_pairs(self@.local),
                user_agent: self@.user_agent,
            }),
    {
        let mut url = self.host.clone();
        url.append("/api/v1/search/videos");
        let mut q: Vec<(String, String)> = Vec::new();
        push_pair(&mut q, "search", query);
        push_page(&mut q, nb, offset);
        push_pair(&mut q, "nsfw", self.include_nsfw);
        self.push_local(&mut q);
        assert(pairs_view(q@) =~= seq![("search"@, query@)] + page_pairs(nb as nat, offset as nat) + seq![
            ("nsfw"@, self@.include_nsfw),
        ] + local_pairs(self@.local));
        Request { url, query: q, user_agent: self.user_agent.clone() }
    }

    /// The request of the videos of the channel `handle` hosted on `host`.
    pub fn channel_videos_request(&self, host: &str, handle: &str, nb: usize, offset: usize) -> (r: Request)
        ensures
            r@ == (RequestView {
                url: api_host_of(self@, host@) + "/api/v1/video-channels/"@ + handle@ + "/videos"@,
                query: seq![("nsfw"@, self@.include_nsfw)] + page_pairs(nb as nat, offset as nat) + local_pairs(
                    self@.local,
                ),
                user_agent: Some(CHANNEL_USER_AGENT@),
            }),
    {
        let mut url = self.api_host(host);
        url.append("/api/v1/video-channels/");
        url.append(handle);
        url.append("/videos");
        let mut q: Vec<(String, String)> = Vec::new();
        push_pair(&mut q, "nsfw", self.include_nsfw);
        push_page(&mut q, nb, offset);
        self.push_local(&mut q);
        assert(pairs_view(q@) =~= seq![("nsfw"@, self@.include_nsfw)] + page_pairs(nb as nat, offset as nat)
            + local_pairs(self@.local));
        Request { url, query: q, user_agent: Some(String::from_str(CHANNEL_USER_AGENT)) }
    }

    /// The request of the comments of the video `video_uuid` hosted on `host`.
    pub fn comments_request(&self, host: &str, video_uuid: &str, nb: usize, offset: usize) -> (r: Request)
        ensures
            r@ == (RequestView {
                url: api_host_of(self@, host@) + "/api/v1/videos/"@ + video_uuid@ + "/comment-threads"@,
                query: page_pairs(nb as nat, offset as nat),
                user_agent: self@.user_agent,
            }),
    {
        let mut url = self.api_host(host);
        url.append("/api/v1/videos/");
        url.append(video_uuid);
        url.append("/comment-threads");
        let mut q: Vec<(String, String)> = Vec::new();
        push_page(&mut q, nb, offset);
        assert(pairs_view(q@) =~= page_pairs(nb as nat, offset as nat));
        Request { url, query: q, user_agent: self.user_agent.clone() }
    }

    /// The request of the trending videos of the instance.
    pub fn trending_videos_request(&self, nb: usize, offset: usize) -> (r: Request)
        ensures
            r@ == (RequestView {
                url: self@.host + "/api/v1/videos"@,
                query: seq![("sort"@, "-trending"@)] + page_pairs(nb as nat, offset as nat) + seq![
                    ("nsfw"@, self@.include_nsfw),
                ] + local_pairs(self@.local),
                user_agent: self@.user_agent,
            }),
    {
        let mut url = self.host.clone();
        url.append("/api/v1/videos");
        let mut q: Vec<(String, String)> = Vec::new();
        push_pair(&mut q, "sort", "-trending");
        push_page(&mut q, nb, offset);
        push_pair(&mut q, "nsfw", self.include_nsfw);
        self.push_local(&mut q);
        assert(pairs_view(q@) =~= seq![("sort"@, "-trending"@)] + page_pairs(nb as nat, offset as nat) + seq![
            ("nsfw"@, self@.include_nsfw),
        ] + local_pairs(self@.local));
        Request { url, query: q, user_agent: self.user_agent.clone() }
    }

    /// The request of a search of channels for `query`.
    pub fn search_channels_request(&self, query: &str, nb: usize, offset: usize) -> (r: Request)
        ensures
            r@ == (RequestView {
                url: self@.host + "/api/v1/search/video-channels"@,
                query: seq![("search"@, query@)] + page_pairs(nb as nat, offset as nat) + local_pairs(self@.local),
                user_agent: self@.user_agent,
            }),
    {
        let mut url = self.host.clone();
        url.append("/api/v1/search/video-channels");
        let mut q: Vec<(String, String)> = Vec::new();
        push_pair(&mut q, "search", query);
        push_page(&mut q, nb, offset);
        self.push_local(&mut q);
        assert(pairs_view(q@) =~= seq![("search"@, query@)] + page_pairs(nb as nat, offset as nat) + local_pairs(
            self@.local,
        ));
        Request { url, query: q, user_agent: self.user_agent.clone() }
    }

    /// The request of the video `uuid` hosted on `host`, with its files.
    pub fn single_video_request(&self, host: &str, uuid: &str) -> (r: Request)
        ensures
            r@ == (RequestView {
                url: api_host_of(self@, host@) + "/api/v1/videos/"@ + uuid@,
                query: Seq::empty(),
                user_agent: self@.user_agent,
            }),
    {
        let mut url = self.api_host(host);
        url.append("/api/v1/videos/");
        url.append(uuid);
        let q: Vec<(String, String)> = Vec::new();
        assert(pairs_view(q@) =~= Seq::<(Seq<char>, Seq<char>)>::empty());
        Request { url, query: q, user_agent: self.user_agent.clone() }
    }

    /// The request of the description of the video `uuid` hosted on `host`;
    /// it sends no user agent.
    pub fn video_description_request(&self, host: &str, uuid: &str) -> (r: Request)
        ensures
            r@ == (RequestView {
                url: api_host_of(self@, host@) + "/api/v1/videos/"@ + uuid@ + "/description"@,
                query: Seq::empty(),
                user_agent: None,
            }),
    {
        let mut url = self.api_host(host);
        url.append("/api/v1/videos/");
        url.append(uuid);
        url.append("/description");
        let q: Vec<(String, String)> = Vec::new();
        assert(pairs_view(q@) =~= Seq::<(Seq<char>, Seq<char>)>::empty());
        Request { url, query: q, user_agent: None }
    }
}

/// The values of videos.
pub open spec fn videos_view(v: Seq<Video>) -> Seq<VideoView> {
    v.map_values(|x: Video| x@)
}

/// The values of channels.
pub open spec fn channels_view(v: Seq<Channel>) -> Seq<ChannelView> {
    v.map_values(|x: Channel| x@)
}

/// The values of comments.
pub open spec fn comments_view(v: Seq<Comment>) -> Seq<CommentView> {
    v.map_values(|x: Comment| x@)
}

/// The comments of an answer that stand, in order.
pub open spec fn kept_comments(v: Seq<ser::comments::Comment>) -> Seq<CommentView>
    decreases v.len(),
{
    if v.len() == 0 {
        Seq::empty()
    } else {
        kept_comments(v.drop_last()) + match comment_of(v.last()) {
            Some(c) => seq![c],
            None => Seq::empty(),
        }
    }
}

/// The videos of an answer, tied to the instance `i`, and the number of videos found.
pub fn videos_from_answer(i: &Arc<Instance>, answer: ser::search::Videos) -> (r: (Vec<Video>, usize))
    ensures
        r.1 == answer.total,
        videos_view(r.0@) == answer.data@.map_values(|v: ser::search::Video| search_video_view((**i)@, v)),
{
    let ser::search::Videos { total, data } = answer;
    let ghost all = data@;
    let mut rest = reversed(data);
    let mut res: Vec<Video> = Vec::new();
    while rest.len() > 0
        invariant
            rest@.len() + res@.len() == all.len(),
            forall|k: int| 0 <= k < rest@.len() ==> #[trigger] rest@[k] == all[all.len() - 1 - k],
            videos_view(res@) == all.take(res@.len() as int).map_values(
                |v: ser::search::Video| search_video_view((**i)@, v),
            ),
        decreases rest@.len(),
    {
        let ghost k = res@.len() as int;
        assert(rest@[rest@.len() - 1] == all[k]);
        let v = rest.pop().unwrap();
        let video = Video::from_search(i, v);
        let ghost before = videos_view(res@);
        res.push(video);
        assert(videos_view(res@) =~= before.push(search_video_view((**i)@, all[k])));
        assert(all.take(k + 1) =~= all.take(k).push(all[k]));
    }
    assert(all.take(all.len() as int) =~= all);
    (res, total)
}

/// The channels of an answer of the instance `i`, and the number of channels found.
pub fn channels_from_answer(i: &Arc<Instance>, answer: ser::channels::Channels) -> (r: (Vec<Channel>, usize))
    ensures
        r.1 == answer.total,
        channels_view(r.0@) == answer.data@.map_values(|c: ser::channels::Channel| channel_view_of(c, (**i)@.host)),
{
    let ser::channels::Channels { total, data } = answer;
    let ghost all = data@;
    let mut rest = reversed(data);
    let mut res: Vec<Channel> = Vec::new();
    while rest.len() > 0
        invariant
            rest@.len() + res@.len() == all.len(),
            forall|k: int| 0 <= k < rest@.len() ==> #[trigger] rest@[k] == all[all.len() - 1 - k],
            channels_view(res@) == all.take(res@.len() as int).map_values(
                |c: ser::channels::Channel| channel_view_of(c, (**i)@.host),
            ),
        decreases rest@.len(),
    {
        let ghost k = res@.len() as int;
        assert(rest@[rest@.len() - 1] == all[k]);
        let c = rest.pop().unwrap();
        let ghost before = channels_view(res@);
        match Channel::maybe_from(c, i.host().clone()) {
            Some(ch) => res.push(ch),
            None => {},
        }
        assert(channels_view(res@) =~= before.push(channel_view_of(all[k], (**i)@.host)));
        assert(all.take(k + 1) =~= all.take(k).push(all[k]));
    }
    assert(all.take(all.len() as int) =~= all);
    (res, total)
}

/// The comments of an answer that stand (not deleted, with an address and
/// an author), and the number of comments.
pub fn comments_from_answer(answer: ser::comments::Comments) -> (r: (Vec<Comment>, usize))
    ensures
        r.1 == answer.total,
        comments_view(r.0@) == kept_comments(answer.data@),
{
    let ser::comments::Comments { total, data } = answer;
    let n = data.len();
    let ghost all = data@;
    let mut rest = reversed(data);
    let mut res: Vec<Comment> = Vec::new();
    let mut taken: usize = 0;
    while rest.len() > 0
        invariant
            rest@.len() + taken == all.len(),
            all.len() <= usize::MAX,
            forall|k: int| 0 <= k < rest@.len() ==> #[trigger] rest@[k] == all[all.len() - 1 - k],
            comments_view(res@) == kept_comments(all.take(taken as int)),
        decreases rest@.len(),
    {
        let ghost k = taken as int;
        assert(rest@[rest@.len() - 1] == all[k]);
        let c = rest.pop().unwrap();
        let ghost before = comments_view(res@);
        assert(all.take(k + 1).drop_last() =~= all.take(k));
        match Comment::from_answer(c) {
            Some(kept) => {
                res.push(kept);
                assert(comments_view(res@) =~= before.push(comment_of(all[k])->0));
            },
            None => {
                assert(comments_view(res@) =~= before + Seq::<CommentView>::empty());
            },
        }
        taken += 1;
    }
    assert(all.take(all.len() as int) =~= all);
    (res, total)
}

} // verus!
