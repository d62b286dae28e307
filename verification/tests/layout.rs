use peertube_viewer::api::instance::Instance;
use peertube_viewer::api::video::Video;
use peertube_viewer::config::{Config, EnvValue};
use peertube_viewer::dates::Timestamp;
use peertube_viewer::display::{Display, ListRow, Piece};
use peertube_viewer::history::History;
use peertube_viewer::layout::{video_pieces, video_rows, VideoLayoutItem};
use peertube_viewer::preloadables::VideoMode;
use peertube_viewer::ser;

fn owner(host: &str) -> ser::common::Channel {
    ser::common::Channel { id: 1, name: "n".into(), display_name: "Chan".into(), url: None, host: host.into(), avatar: None }
}

fn video(uuid: &str, host: &str) -> Video {
    let t = Timestamp::new(0, 0, 0);
    let l = ser::search::IdentifiedLabel { id: None, label: "l".into() };
    let v = ser::search::Video {
        uuid: uuid.into(),
        created_at: t,
        published_at: t,
        description: None,
        duration: 61,
        is_local: false,
        name: format!("name {uuid}"),
        thumbnail_path: None,
        preview_path: None,
        embed_path: None,
        views: 2500,
        likes: 0,
        dislikes: 0,
        nsfw: true,
        is_live: false,
        state: ser::common::VideoState::default(),
        account: owner(host),
        channel: owner(host),
        category: l.clone(),
        licence: l.clone(),
        language: ser::search::Language { id: None, label: "en".into() },
        privacy: l,
    };
    let i = Instance::new("https://a.org".into(), false, false, None, false);
    Video::from_search(&i, v)
}

#[test]
fn items_of_a_video_line() {
    let v = video("u", "h.org");
    assert_eq!(VideoLayoutItem::Name.display(&v), "name u");
    assert_eq!(VideoLayoutItem::Views.display(&v), "2K");
    assert_eq!(VideoLayoutItem::Duration.display(&v), "01:01");
    assert_eq!(VideoLayoutItem::Nsfw.display(&v), "nsfw");
    assert_eq!(VideoLayoutItem::Host.display(&v), "h.org");
    assert_eq!(VideoLayoutItem::Channel.display(&v), "Chan");
    assert_eq!(VideoLayoutItem::String(" | ".into()).display(&v), " | ");
    assert!(VideoLayoutItem::Published.display(&v).ends_with('y'));
    let two_days_later = Timestamp::new(2 * 86400, 0, 0);
    assert_eq!(VideoLayoutItem::Published.display_at(&v, &two_days_later), "2d");
    assert_eq!(VideoLayoutItem::Name.display_at(&v, &two_days_later), "name u");
    assert!(VideoLayoutItem::Alignement.is_align());
    assert!(VideoLayoutItem::Style("S".into()).is_style());
    assert_eq!(VideoLayoutItem::Style("S".into()).display_as_style(), "S");
}

#[test]
fn rows_of_videos() {
    let owned = vec![video("u1", "ok.org"), video("u2", "bad.org"), video("u3", "ok.org")];
    let videos: Vec<&Video> = owned.iter().collect();
    let (config, _) = Config::from_file_text(
        EnvValue::Unset,
        Ok("[instances]\nblocklist = [\"bad.org\"]\n".into()),
        "c.toml",
        false,
    );
    let mut history = History::new();
    history.add_video("u3".into());
    let layout = vec![VideoLayoutItem::Name, VideoLayoutItem::Alignement, VideoLayoutItem::Duration];
    let seen = vec![VideoLayoutItem::String("* ".into()), VideoLayoutItem::Name];
    let rows = video_rows(&videos, &history, &config, &layout, &seen);
    assert!(matches!(&rows[1], ListRow::Blocked(r) if r == "Blocked video from: bad.org"));
    let text = Display::new(false).list(&rows);
    assert_eq!(text, "1: name u101:01\n2: Blocked video from: bad.org\n3: * name u3\n");
    let pieces = video_pieces(&layout, videos[0]);
    assert!(matches!(pieces[1], Piece::Align));
}

#[test]
fn modes_of_video_lists() {
    let i = Instance::new("https://search.org".into(), false, false, None, true);
    assert_eq!(VideoMode::Trending.name(), "Trending video");
    assert_eq!(VideoMode::Search("x".into()).name(), "Video search");
    let r = VideoMode::Channel("c@h.org".into()).request(&i, 20, 0);
    assert_eq!(r.url, "https://h.org/api/v1/video-channels/c@h.org/videos");
    let r = VideoMode::Search("cats".into()).request(&i, 20, 0);
    assert_eq!(r.url, "https://search.org/api/v1/search/videos");
}
