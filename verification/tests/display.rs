use peertube_viewer::display::{ruler, centered, Display, ListRow, Piece};

#[test]
fn display_length() {
    assert_eq!(peertube_viewer::helpers::display_length(0), 1);
    assert_eq!(peertube_viewer::helpers::display_length(1), 1);
    assert_eq!(peertube_viewer::helpers::display_length(9), 1);
    assert_eq!(peertube_viewer::helpers::display_length(10), 2);
    assert_eq!(peertube_viewer::helpers::display_length(11), 2);
    assert_eq!(peertube_viewer::helpers::display_length(99), 2);
    assert_eq!(peertube_viewer::helpers::display_length(100), 3);
    assert_eq!(peertube_viewer::helpers::display_length(101), 3);
}

#[test]
fn lines_and_centering() {
    assert_eq!(ruler('=', 5), "=====");
    assert_eq!(centered("abc", 10), "   abc");
    assert_eq!(centered("abcdef", 3), "abcdef");
}

#[test]
fn welcome_banner() {
    let d = Display::new(false);
    assert_eq!(d.welcome("https://a.org", 30), "==============================\n Connecting to: https://a.org\n==============================\n");
}

#[test]
fn colored_messages() {
    let d = Display::new(true);
    assert_eq!(d.err_text("bad"), "\x1b[38;5;1m\x1b[1mbad\x1b[m\x1b[39m");
    assert_eq!(d.warn_text("hm"), "\x1b[38;5;3m\x1b[1mhm\x1b[m\x1b[39m");
    let plain = Display::new(false);
    assert_eq!(plain.err_text("bad"), "\x1b[1mbad\x1b[m");
    assert_eq!(plain.info_text("i"), "\x1b[1m\x1b[4mi\x1b[m");
    assert_eq!(
        plain.mode_info_text("Video search", 100, 20, 20),
        "\x1b[1m\x1b[4mVideo search results 20 to 40 out of 100 (:h for help)\x1b[m"
    );
}

#[test]
fn aligned_list() {
    let d = Display::new(false);
    let rows = vec![
        ListRow::Shown(vec![Piece::Text("ab".into()), Piece::Align, Piece::Text("x".into())]),
        ListRow::Blocked("Blocked video from: b.org".into()),
        ListRow::Shown(vec![Piece::Text("abcd".into()), Piece::Style("S".into()), Piece::Align, Piece::Text("y".into())]),
    ];
    assert_eq!(d.list(&rows), "1: ab  x\n2: Blocked video from: b.org\n3: abcdy\n");
    let colored = Display::new(true);
    assert_eq!(
        colored.list(&rows),
        "1: ab  x\n2: \x1b[38;5;1mBlocked video from: b.org\x1b[39m\n3: abcdSy\n"
    );
}

#[test]
fn list_numbers_are_padded() {
    let d = Display::new(false);
    let rows: Vec<ListRow> = (0..10).map(|i| ListRow::Shown(vec![Piece::Text(format!("v{i}"))])).collect();
    let text = d.list(&rows);
    assert!(text.starts_with("1 : v0\n"));
    assert!(text.ends_with("10: v9\n"));
}

#[test]
fn wide_characters_count_double() {
    let d = Display::new(false);
    let rows = vec![
        ListRow::Shown(vec![Piece::Text("日本".into()), Piece::Align, Piece::Text("|".into())]),
        ListRow::Shown(vec![Piece::Text("ab".into()), Piece::Align, Piece::Text("|".into())]),
    ];
    assert_eq!(d.list(&rows), "1: 日本|\n2: ab  |\n");
}
