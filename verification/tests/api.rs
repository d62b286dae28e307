use peertube_viewer::api::channels::Channel;
use peertube_viewer::api::comments::Comment;
use peertube_viewer::api::error::{status_or_error, Error, UreqFailure};
use peertube_viewer::api::instance::{
    channels_from_answer, comments_from_answer, nsfw_string, videos_from_answer, Instance, CHANNEL_USER_AGENT,
};
use peertube_viewer::api::video::{fetched_files, Description, State, Video};
use peertube_viewer::dates::Timestamp;
use peertube_viewer::ser;
use std::sync::Arc;

fn pairs(v: &[(&str, &str)]) -> Vec<(String, String)> {
    v.iter().map(|(a, b)| (a.to_string(), b.to_string())).collect()
}

fn owner(name: &str, host: &str) -> ser::common::Channel {
    ser::common::Channel {
        id: 1,
        name: name.into(),
        display_name: format!("{name} display"),
        url: None,
        host: host.into(),
        avatar: None,
    }
}

fn label(l: &str) -> ser::search::IdentifiedLabel {
    ser::search::IdentifiedLabel { id: None, label: l.into() }
}

fn search_video(uuid: &str, state: u16) -> ser::search::Video {
    let t = Timestamp::new(1467969011, 0, 0);
    ser::search::Video {
        uuid: uuid.into(),
        created_at: t,
        published_at: t,
        description: Some("short".into()),
        duration: 61,
        is_local: false,
        name: format!("video {uuid}"),
        thumbnail_path: None,
        preview_path: None,
        embed_path: None,
        views: 1200,
        likes: 3,
        dislikes: 1,
        nsfw: false,
        is_live: false,
        state: ser::common::VideoState { id: state, label: "s".into() },
        account: owner("acc", "host.org"),
        channel: owner("chan", "host.org"),
        category: label("c"),
        licence: label("l"),
        language: ser::search::Language { id: None, label: "en".into() },
        privacy: label("p"),
    }
}

fn file(label: &str, size: u64) -> ser::video::File {
    ser::video::File {
        magnet_uri: "magnet:".into(),
        resolution: ser::video::Resolution { id: 720, label: label.into() },
        size,
        torrent_url: format!("t-{label}"),
        torrent_download_url: format!("td-{label}"),
        file_url: format!("f-{label}"),
        file_download_url: format!("fd-{label}"),
    }
}

fn stream(url: &str) -> ser::video::StreamingPlaylist {
    ser::video::StreamingPlaylist { id: 1, playlist_url: url.into() }
}

#[test]
fn search_request() {
    let i = Instance::new("https://a.org".into(), false, true, Some("ua".into()), false);
    let r = i.search_videos_request("cats", 20, 40);
    assert_eq!(r.url, "https://a.org/api/v1/search/videos");
    assert_eq!(
        r.query,
        pairs(&[("search", "cats"), ("count", "20"), ("start", "40"), ("nsfw", "false"), ("filter", "local")])
    );
    assert_eq!(r.user_agent, Some("ua".into()));
    let t = i.trending_videos_request(5, 0);
    assert_eq!(t.url, "https://a.org/api/v1/videos");
    assert_eq!(t.query, pairs(&[("sort", "-trending"), ("count", "5"), ("start", "0"), ("nsfw", "false"), ("filter", "local")]));
}

#[test]
fn requests_outside_the_search_go_to_the_host() {
    let engine = Instance::new("https://search.org".into(), true, false, None, true);
    assert_eq!(nsfw_string(true), "both");
    let r = engine.channel_videos_request("video.org", "c@video.org", 3, 6);
    assert_eq!(r.url, "https://video.org/api/v1/video-channels/c@video.org/videos");
    assert_eq!(r.query, pairs(&[("nsfw", "both"), ("count", "3"), ("start", "6")]));
    assert_eq!(r.user_agent, Some(CHANNEL_USER_AGENT.to_string()));
    let d = engine.video_description_request("video.org", "u1");
    assert_eq!(d.url, "https://video.org/api/v1/videos/u1/description");
    assert_eq!(d.user_agent, None);
    let c = engine.comments_request("video.org", "u1", 20, 0);
    assert_eq!(c.url, "https://video.org/api/v1/videos/u1/comment-threads");
    let direct = Instance::new("https://a.org".into(), true, false, None, false);
    assert_eq!(direct.single_video_request("video.org", "u1").url, "https://a.org/api/v1/videos/u1");
    assert_eq!(direct.search_channels_request("x", 1, 2).url, "https://a.org/api/v1/search/video-channels");
}

#[test]
fn videos_of_an_answer() {
    let i = Instance::new("https://a.org".into(), false, false, None, false);
    let answer = ser::search::Videos { total: 42, data: vec![search_video("u1", 1), search_video("u2", 9)] };
    let (videos, total) = videos_from_answer(&i, answer);
    assert_eq!(total, 42);
    assert_eq!(videos.len(), 2);
    assert_eq!(videos[0].uuid(), "u1");
    assert_eq!(videos[1].name(), "video u2");
    assert_eq!(videos[0].host(), "host.org");
    assert_eq!(videos[0].watch_url(), "https://host.org/videos/watch/u1");
    assert!(matches!(videos[0].state(), State::Published));
    assert!(matches!(videos[1].state(), State::Unknown(9, _)));
    assert_eq!(videos[0].short_desc(), Some("short"));
    assert_eq!(videos[0].channel_display(), "chan display");
    assert_eq!(videos[0].account_display(), "acc display");
    assert!(videos[0].needs_description());
    assert!(videos[0].needs_files());
}

#[test]
fn description_is_fetched_once() {
    let i = Instance::new("https://a.org".into(), false, false, None, false);
    let mut v = Video::from_search(&i, search_video("u1", 1));
    assert_eq!(v.load_description(Some(Err(Error::NoContent))).unwrap_err().message(), "No content");
    assert!(v.needs_description());
    assert_eq!(v.description(Some(Ok(Some("long".into())))).unwrap(), Some("long".into()));
    assert_eq!(v.description(Some(Ok(Some("other".into())))).unwrap(), Some("long".into()));
    assert_eq!(v.description(None).unwrap(), Some("long".into()));
}

#[test]
fn files_are_fetched_once() {
    let i = Instance::new("https://a.org".into(), false, false, None, false);
    let mut v = Video::from_search(&i, search_video("u1", 1));
    let fetched = fetched_files(vec![file("720p", 2048)], vec![stream("s.m3u8")]);
    let res = v.resolutions(Some(fetched)).unwrap();
    assert_eq!(res.len(), 1);
    assert_eq!(res[0].label(), "720p");
    assert_eq!(*res[0].size(), 2048);
    assert_eq!(*res[0].id(), 720);
    assert_eq!(v.resolution_url(0).unwrap(), "fd-720p");
    assert_eq!(v.torrent_url(0).unwrap(), "td-720p");
    assert_eq!(v.stream_url(0).unwrap(), "s.m3u8");
    assert!(matches!(v.resolution_url(1), Err(Error::OutOfBound(1))));
    assert_eq!(v.has_files().unwrap(), true);
    assert_eq!(v.has_streams().unwrap(), true);
    let streams = v.streams(Some(Err(Error::NoContent))).unwrap();
    assert_eq!(streams[0].playlist_url(), "s.m3u8");
}

#[test]
fn an_error_of_the_files_is_kept() {
    let i = Instance::new("https://a.org".into(), false, false, None, false);
    let mut v = Video::from_search(&i, search_video("u1", 1));
    assert!(matches!(fetched_files(vec![], vec![]), Err(Error::NoContent)));
    assert!(matches!(v.load_resolutions(Some(Err(Error::Status(500)))), Err(Error::Status(500))));
    assert!(!v.needs_files());
    assert!(matches!(v.resolutions(None), Err(Error::Status(500))));
    assert!(matches!(v.resolution_url(0), Err(Error::Status(500))));
}

#[test]
fn full_answers_carry_their_files() {
    let i = Instance::new("https://a.org".into(), false, false, None, false);
    let s = search_video("u9", 4);
    let full = ser::video::Video {
        uuid: s.uuid,
        created_at: s.created_at,
        published_at: s.published_at,
        description: None,
        duration: 10,
        is_local: true,
        name: "full".into(),
        thumbnail_path: String::new(),
        preview_path: String::new(),
        embed_path: String::new(),
        views: 0,
        likes: 0,
        dislikes: 0,
        nsfw: true,
        is_live: true,
        state: s.state,
        account: s.account,
        channel: s.channel,
        category: s.category,
        licence: s.licence,
        language: s.language,
        privacy: s.privacy,
        files: vec![file("1080p", 10), file("360p", 5)],
        streaming_playlists: vec![],
    };
    let v = Video::from_full(&i, full);
    assert!(!v.needs_files());
    assert_eq!(v.resolution_url(1).unwrap(), "fd-360p");
    assert_eq!(v.has_streams().unwrap(), false);
    assert!(v.nsfw());
    assert!(v.is_live());
    assert!(matches!(v.state(), State::WaitingForLive));
}

#[test]
fn channels_and_comments() {
    let i = Instance::new("https://a.org".into(), false, false, None, false);
    let t = Timestamp::new(0, 0, 0);
    let account = ser::channels::Account {
        id: 1,
        name: "o".into(),
        display_name: "O".into(),
        description: None,
        host: "h.org".into(),
        avatar: None,
        following_count: 0,
        followers_count: 0,
        created_at: String::new(),
        updated_at: String::new(),
    };
    let c = ser::channels::Channel {
        id: -3,
        name: "chan".into(),
        display_name: "Chan".into(),
        description: Some("d".into()),
        host: "h.org".into(),
        following_count: 0,
        followers_count: 12,
        created_at: t,
        owner_account: account,
    };
    let (channels, total) = channels_from_answer(&i, ser::channels::Channels { total: 1, data: vec![c] });
    assert_eq!(total, 1);
    let ch: &Channel = &channels[0];
    assert_eq!(ch.handle(), "chan@h.org");
    assert_eq!(ch.rss(), "https://a.org/feeds/videos.xml?videoChannelId=0");
    assert_eq!(ch.atom(), "https://a.org/feeds/videos.atom?videoChannelId=0");
    assert_eq!(ch.followers(), 12);
    assert_eq!(i.channel_url("h.org", ch), "https://a.org/video-channels/chan@h.org/videos");
    let engine = Instance::new("https://sepiasearch.org".into(), false, false, None, true);
    assert_eq!(engine.channel_url("h.org", ch), "https://h.org/video-channels/chan@h.org/videos");

    let kept = ser::comments::Comment {
        id: 1,
        url: Some("https://h.org/c/1".into()),
        text: "hi".into(),
        thread_id: 1,
        video_id: 1,
        created_at: t,
        deleted: None,
        is_deleted: false,
        account: Some(owner("me", "h.org")),
    };
    let mut deleted = kept.clone();
    deleted.is_deleted = true;
    let mut anonymous = kept.clone();
    anonymous.account = None;
    let (comments, total) =
        comments_from_answer(ser::comments::Comments { total: 3, data: vec![deleted, kept, anonymous] });
    assert_eq!(total, 3);
    assert_eq!(comments.len(), 1);
    let c: &Comment = &comments[0];
    assert_eq!(c.content(), "hi");
    assert_eq!(c.url(), "https://h.org/c/1");
    assert_eq!(c.author_display_name(), "me display");
    assert_eq!(c.author_host(), "h.org");
}

#[test]
fn api_error_messages() {
    assert_eq!(Error::Status(404).message(), "Connection error: ERROR 404");
    assert_eq!(Error::OutOfBound(3).message(), "Out of bound access, the array is of len 3");
    assert_eq!(Error::Serde("eof".into()).message(), "Deserialisation error: eof");
    assert_eq!(Error::Io("closed".into()).message(), "Connection error: closed");
    assert_eq!(Error::Ureq(UreqFailure::Transport("dns".into())).message(), "Connection error: dns");
    assert!(matches!(status_or_error(200), Ok(200)));
    assert!(matches!(status_or_error(404), Err(Error::Status(404))));
}

#[test]
fn description_states() {
    assert!(Description::NotFetched.is_none());
    assert!(!Description::FetchedNone.is_none());
    assert_eq!(Description::NotFetched.to_option(), None);
    assert_eq!(Description::FetchedNone.to_option(), None);
    assert_eq!(Description::FetchedError(Error::NoContent).to_option(), None);
    assert_eq!(Description::Fetched("text".into()).to_option(), Some("text".into()));
}
