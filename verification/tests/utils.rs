use peertube_viewer::utils::{host_from_handle, to_https};

#[test]
fn https_helper() {
    assert_eq!(to_https("http://foo.bar/"), "https://foo.bar".to_owned());
    assert_eq!(to_https("foo.bar"), "https://foo.bar".to_owned());
    assert_eq!(to_https("foo.bar/"), "https://foo.bar".to_owned());
    assert_eq!(to_https("https://foo.bar/"), "https://foo.bar".to_owned());
    assert_eq!(to_https("https://foo.bar"), "https://foo.bar");
}

#[test]
fn handle_helper() {
    assert_eq!(host_from_handle("channel@instance.org").unwrap(), "https://instance.org".to_owned());
    assert!(host_from_handle("no ").is_err());
}

#[test]
fn handle_with_two_ats_stops_at_the_second() {
    assert_eq!(host_from_handle("a@b.org@c").unwrap(), "https://b.org");
}
