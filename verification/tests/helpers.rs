use peertube_viewer::dates::{Elapsed, Timestamp};
use peertube_viewer::helpers::{
    display_count, display_length, full_date, pretty_date_at, pretty_duration, pretty_duration_or_live,
    pretty_duration_since, pretty_size, remove_html,
};

#[test]
fn html() {
    assert_eq!(remove_html("Some text<br /><br />More text?"), "Some text\n\nMore text?");
    assert_eq!(
        remove_html(
            r#"<p><span class="h-card"><a href="https://framatube.org/accounts/framasoft" class="u-url mention">@<span>framasoft</span></a></span> I love this. ❤️</p>"#
        ),
        "@framasoft I love this. ❤️"
    );
}

#[test]
fn helpers_length() {
    assert_eq!(display_length(0), 1);
    assert_eq!(display_length(1), 1);
    assert_eq!(display_length(9), 1);
    assert_eq!(display_length(10), 2);
    assert_eq!(display_length(11), 2);
    assert_eq!(display_length(99), 2);
    assert_eq!(display_length(100), 3);
    assert_eq!(display_length(101), 3);
}

#[test]
fn count() {
    assert_eq!(display_count(0), "0");
    assert_eq!(display_count(10), "10");
    assert_eq!(display_count(999), "999");
    assert_eq!(display_count(1000), "1K");
    assert_eq!(display_count(1001), "1K");
    assert_eq!(display_count(1999), "1K");
    assert_eq!(display_count(2000), "2K");
    assert_eq!(display_count(2001), "2K");
    assert_eq!(display_count(999999), "999K");
    assert_eq!(display_count(1000000), "1M");
}

#[test]
fn size() {
    assert_eq!(pretty_size(0), "0B");
    assert_eq!(pretty_size(10), "10B");
    assert_eq!(pretty_size(1023), "1023B");
    assert_eq!(pretty_size(1024), "1KB");
    assert_eq!(pretty_size(1025), "1KB");
    assert_eq!(pretty_size(2047), "1KB");
    assert_eq!(pretty_size(2048), "2KB");
    assert_eq!(pretty_size(2049), "2KB");
    assert_eq!(pretty_size(1048575), "1023KB");
    assert_eq!(pretty_size(1048576), "1MB");
}

#[test]
fn duration() {
    assert_eq!(pretty_duration(0), "00:00");
    assert_eq!(pretty_duration(1), "00:01");
    assert_eq!(pretty_duration(9), "00:09");
    assert_eq!(pretty_duration(59), "00:59");
    assert_eq!(pretty_duration(60), "01:00");
    assert_eq!(pretty_duration(119), "01:59");
    assert_eq!(pretty_duration(120), "02:00");
    assert_eq!(pretty_duration(3599), "59:59");
    assert_eq!(pretty_duration(3600), "1:00:00");
    assert_eq!(pretty_duration(7199), "1:59:59");
    assert_eq!(pretty_duration(7200), "2:00:00");
}

#[test]
fn duration_since() {
    assert_eq!(pretty_duration_since(Elapsed::weeks(1)), "1w");
    assert_eq!(pretty_duration_since(Elapsed::weeks(4)), "4w");
    assert_eq!(pretty_duration_since(Elapsed::weeks(5)), "1m");
    assert_eq!(pretty_duration_since(Elapsed::seconds(1)), "1s");
    assert_eq!(pretty_duration_since(Elapsed::seconds(59)), "59s");
    assert_eq!(pretty_duration_since(Elapsed::seconds(61)), "1min");
    assert_eq!(pretty_duration_since(Elapsed::minutes(1)), "1min");
    assert_eq!(pretty_duration_since(Elapsed::minutes(59)), "59min");
    assert_eq!(pretty_duration_since(Elapsed::minutes(61)), "1h");
    assert_eq!(pretty_duration_since(Elapsed::hours(1)), "1h");
    assert_eq!(pretty_duration_since(Elapsed::hours(23)), "23h");
    assert_eq!(pretty_duration_since(Elapsed::hours(24)), "1d");
    assert_eq!(pretty_duration_since(Elapsed::weeks(51)), "11m");
    assert_eq!(pretty_duration_since(Elapsed::weeks(52)), "12m");
    assert_eq!(pretty_duration_since(Elapsed::weeks(53)), "1y");
}

#[test]
fn date() {
    let t = time::OffsetDateTime::parse("2016-07-08T09:10:11+00:00", &time::format_description::well_known::Rfc3339).unwrap();
    let ts = Timestamp::new(t.unix_timestamp(), t.nanosecond(), t.offset().whole_seconds());
    assert_eq!(full_date(&ts), "Friday 8 July 2016");
}

#[test]
fn future_dates_are_reported() {
    let earlier = Timestamp::new(1000, 0, 0);
    let later = Timestamp::new(2000, 0, 0);
    assert_eq!(pretty_date_at(&earlier, &later), "From the future. Bug?");
    assert_eq!(pretty_date_at(&later, &earlier), "16min");
}

#[test]
fn live_videos_have_no_duration() {
    assert_eq!(pretty_duration_or_live(61, true), "LIVE");
    assert_eq!(pretty_duration_or_live(61, false), "01:01");
}

#[test]
fn large_prefixes() {
    assert_eq!(pretty_size(1024 * 1024 * 1024 * 1024 * 3), "3EB");
    assert_eq!(display_count(999_999_999_999_999), "999E");
}

#[test]
fn html_entities() {
    assert_eq!(remove_html("a &amp; b &lt;c&gt;"), "a & b <c>");
    assert_eq!(remove_html("it&apos;s"), "it's");
    assert_eq!(remove_html("<b>bold"), "bold");
    assert_eq!(remove_html("unclosed <tag"), "unclosed ");
}
