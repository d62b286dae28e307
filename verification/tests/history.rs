use peertube_viewer::history::{History, HistoryT};

fn lines(v: &[&str]) -> Vec<String> {
    v.iter().map(|s| s.to_string()).collect()
}

#[test]
fn added_videos_are_viewed_once() {
    let mut h = History::new();
    assert!(!h.is_viewed("a"));
    h.add_video("a".into());
    h.add_video("b".into());
    h.add_video("a".into());
    assert!(h.is_viewed("a"));
    assert!(HistoryT::<str>::is_viewed(&(), "a") == false);
    assert_eq!(h.save_text(0), "b\na\n");
    assert_eq!(h.save_text(1), "b\n");
}

#[test]
fn save_then_load_keeps_the_order() {
    let mut h = History::new();
    h.add_video("x".into());
    h.add_video("y".into());
    h.add_video("z".into());
    let text = h.save_text(0);
    let mut loaded = History::new();
    loaded.load_lines(lines(&text.lines().collect::<Vec<_>>()), true);
    assert_eq!(loaded.save_text(0), text);
    assert!(loaded.is_viewed("y"));
}

#[test]
fn a_new_video_is_saved_first() {
    let mut h = History::new();
    h.add_video("a".into());
    h.add_video("b".into());
    let before = h.save_text(0);
    h.add_video("c".into());
    assert_eq!(h.save_text(0), format!("c\n{before}"));
    h.add_video("a".into());
    assert_eq!(h.save_text(0), "c\nb\na\n");
}

#[test]
fn loading_a_shortened_save_keeps_the_most_recent() {
    let mut h = History::new();
    for u in ["u1", "u2", "u3", "u4"] {
        h.add_video(u.into());
    }
    let text = h.save_text(2);
    assert_eq!(text, "u4\nu3\n");
    let mut loaded = History::new();
    loaded.load_lines(lines(&text.lines().collect::<Vec<_>>()), true);
    assert!(loaded.is_viewed("u3") && loaded.is_viewed("u4"));
    assert!(!loaded.is_viewed("u1") && !loaded.is_viewed("u2"));
    assert_eq!(loaded.save_text(0), text);
}
