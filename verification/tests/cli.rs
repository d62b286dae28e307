use peertube_viewer::api::error::{Error as ApiError, UreqFailure};
use peertube_viewer::api::instance::Instance;
use peertube_viewer::api::video::{fetched_files, State, Video};
use peertube_viewer::cli::{
    choose_play, chosen_url, confirms, history_entry, plan_action, state_warning, ModeKind, PlayChoice,
    PlayOptions, Step, NO_RESOLUTION, NO_RESOLUTION_HLS, NO_STREAM, NO_TORRENT,
};
use peertube_viewer::dates::Timestamp;
use peertube_viewer::error::{Error, ReadlineFailure, NO_CONTENT_NOTICE};
use peertube_viewer::parser::ParsedQuery;
use peertube_viewer::ser;

fn owner() -> ser::common::Channel {
    ser::common::Channel { id: 1, name: "n".into(), display_name: "N".into(), url: None, host: "h.org".into(), avatar: None }
}

fn video() -> Video {
    let t = Timestamp::new(0, 0, 0);
    let l = ser::search::IdentifiedLabel { id: None, label: "l".into() };
    let v = ser::search::Video {
        uuid: "u".into(),
        created_at: t,
        published_at: t,
        description: None,
        duration: 1,
        is_local: false,
        name: "v".into(),
        thumbnail_path: None,
        preview_path: None,
        embed_path: None,
        views: 0,
        likes: 0,
        dislikes: 0,
        nsfw: false,
        is_live: false,
        state: ser::common::VideoState::default(),
        account: owner(),
        channel: owner(),
        category: l.clone(),
        licence: l.clone(),
        language: ser::search::Language { id: None, label: "en".into() },
        privacy: l,
    };
    let i = Instance::new("https://a.org".into(), false, false, None, false);
    Video::from_search(&i, v)
}

fn file(label: &str) -> ser::video::File {
    ser::video::File {
        magnet_uri: String::new(),
        resolution: ser::video::Resolution { id: 1, label: label.into() },
        size: 1,
        torrent_url: String::new(),
        torrent_download_url: format!("torrent-{label}"),
        file_url: String::new(),
        file_download_url: format!("file-{label}"),
    }
}

fn stream() -> ser::video::StreamingPlaylist {
    ser::video::StreamingPlaylist { id: 1, playlist_url: "stream".into() }
}

fn opts(select_quality: bool, use_torrent: bool, use_raw_url: bool, prefer_hls: bool) -> PlayOptions {
    PlayOptions { select_quality, use_torrent, use_raw_url, prefer_hls }
}

#[test]
fn actions_become_steps() {
    assert_eq!(plan_action(&ParsedQuery::Query("cats".into()), ModeKind::Temp, true), Step::SearchVideos("cats".into()));
    assert_eq!(plan_action(&ParsedQuery::Trending, ModeKind::Temp, true), Step::TrendingUnavailable { ask_first: true });
    assert_eq!(plan_action(&ParsedQuery::Trending, ModeKind::Videos, true), Step::TrendingUnavailable { ask_first: false });
    assert_eq!(plan_action(&ParsedQuery::Trending, ModeKind::Videos, false), Step::Trending);
    assert_eq!(plan_action(&ParsedQuery::Help, ModeKind::Channels, false), Step::Help { ask_first: false });
    assert_eq!(plan_action(&ParsedQuery::Quit, ModeKind::Temp, false), Step::Stop);
    assert_eq!(plan_action(&ParsedQuery::Next, ModeKind::Comments, false), Step::NextPage);
    assert_eq!(plan_action(&ParsedQuery::Info(2), ModeKind::Videos, false), Step::Info(2));
}

#[test]
fn history_entries() {
    assert_eq!(history_entry(&ParsedQuery::Channels("q".into()), false), Some(":channels q".into()));
    assert_eq!(history_entry(&ParsedQuery::Chandle("h@x".into()), false), Some(":chandle h@x".into()));
    assert_eq!(history_entry(&ParsedQuery::Browser(12), false), Some(":browser 12".into()));
    assert_eq!(history_entry(&ParsedQuery::Trending, false), Some(":trending".into()));
    assert_eq!(history_entry(&ParsedQuery::Trending, true), None);
    assert_eq!(history_entry(&ParsedQuery::Quit, false), None);
}

#[test]
fn confirmations_and_states() {
    assert!(confirms("y"));
    assert!(confirms("Y"));
    assert!(!confirms("yes"));
    assert_eq!(state_warning(&State::Published), None);
    assert_eq!(state_warning(&State::ToImport), Some("This video is not yet available"));
    assert_eq!(state_warning(&State::LiveEnded), Some("This livestream is over"));
    assert_eq!(state_warning(&State::Unknown(9, "x".into())), None);
}

#[test]
fn watch_url_without_options() {
    let mut v = video();
    match choose_play(&mut v, opts(false, false, false, true), None).unwrap() {
        PlayChoice::Play(u) => assert_eq!(u, "https://h.org/videos/watch/u"),
        other => panic!("{other:?}"),
    }
    assert!(v.needs_files());
}

#[test]
fn select_quality_paths() {
    let mut v = video();
    match choose_play(&mut v, opts(true, false, false, true), Some(fetched_files(vec![file("a"), file("b")], vec![]))).unwrap() {
        PlayChoice::AskResolution(r) => assert_eq!(r.len(), 2),
        other => panic!("{other:?}"),
    }
    assert_eq!(chosen_url(&v, false, 2).unwrap(), "file-b");
    assert_eq!(chosen_url(&v, true, 1).unwrap(), "torrent-a");
    let mut s = video();
    match choose_play(&mut s, opts(true, false, false, true), Some(fetched_files(vec![], vec![stream()]))).unwrap() {
        PlayChoice::PlayWarned(u, w) => {
            assert_eq!(u, "stream");
            assert_eq!(w, NO_RESOLUTION_HLS);
        },
        other => panic!("{other:?}"),
    }
    let mut e = video();
    let r = choose_play(&mut e, opts(true, true, false, true), Some(Ok((vec![], vec![]))));
    assert!(matches!(r, Ok(PlayChoice::Skip(NO_TORRENT))));
    let mut w = video();
    let r = choose_play(&mut w, opts(true, false, false, true), Some(Ok((vec![], vec![]))));
    assert!(matches!(r, Ok(PlayChoice::PlayWarned(_, NO_RESOLUTION))));
}

#[test]
fn torrent_and_raw_paths() {
    let mut t = video();
    match choose_play(&mut t, opts(false, true, false, true), Some(fetched_files(vec![file("a")], vec![]))).unwrap() {
        PlayChoice::Play(u) => assert_eq!(u, "torrent-a"),
        other => panic!("{other:?}"),
    }
    let mut r = video();
    match choose_play(&mut r, opts(false, false, true, true), Some(fetched_files(vec![file("a")], vec![stream()]))).unwrap() {
        PlayChoice::Play(u) => assert_eq!(u, "stream"),
        other => panic!("{other:?}"),
    }
    let mut f = video();
    match choose_play(&mut f, opts(false, false, true, false), Some(fetched_files(vec![file("a")], vec![stream()]))).unwrap() {
        PlayChoice::Play(u) => assert_eq!(u, "file-a"),
        other => panic!("{other:?}"),
    }
    let mut n = video();
    let res = choose_play(&mut n, opts(false, false, true, false), Some(Ok((vec![], vec![]))));
    assert!(matches!(res, Ok(PlayChoice::PlayWarned(_, NO_STREAM))));
    let mut err = video();
    let res = choose_play(&mut err, opts(false, false, true, false), Some(Err(ApiError::Status(502))));
    assert!(matches!(res, Err(ApiError::Status(502))));
}

#[test]
fn errors_that_can_be_got_over() {
    let e = Error::Api(ApiError::Ureq(UreqFailure::Status(404, "x".into())));
    assert_eq!(
        e.notice(),
        Some("Error encountered while connecting to the desired instance: 404\nThis is likely because the server you are trying to connect isn't a PeerTube instance.".into())
    );
    let e = Error::Api(ApiError::Ureq(UreqFailure::Status(503, "x".into())));
    assert!(e.notice().unwrap().starts_with("The server you are trying to connect failed to process the request: 503\n"));
    assert_eq!(Error::Api(ApiError::NoContent).notice(), Some(NO_CONTENT_NOTICE.into()));
    assert_eq!(Error::Api(ApiError::Status(404)).notice(), None);
    assert_eq!(Error::VideoLaunch("x".into()).notice(), None);
    assert!(Error::Readline(ReadlineFailure::Eof).is_quiet());
    assert!(!Error::Stdin("x".into()).is_quiet());
    assert_eq!(Error::BlockedInstance("b.org".into()).title(), "Can't connect to a blocked instance: b.org");
    assert_eq!(
        Error::Api(ApiError::NoContent).unexpected_message(),
        "Unexpected error: Error connecting to the API\nThis is likely an error with peertube-viewer-rs.\n"
    );
}
