use peertube_viewer::url_parser::{ParsedUrl, UrlType};

#[test]
fn frontend_url_parser_test() {
    assert_eq!(
        ParsedUrl::from_url("https://video.ploud.fr/videos/watch/9c9de5e8-0a1e-484a-b099-e80766180a6d"),
        Some(ParsedUrl {
            instance: "https://video.ploud.fr".to_string(),
            url_data: UrlType::Video("9c9de5e8-0a1e-484a-b099-e80766180a6d".to_string())
        })
    );
    assert_eq!(
        ParsedUrl::from_url(
            "https://video.ploud.fr/video-channels/bf54d359-cfad-4935-9d45-9d6be93f63e8@framatube.org/videos"
        ),
        Some(ParsedUrl {
            instance: "https://video.ploud.fr".to_string(),
            url_data: UrlType::Channel("bf54d359-cfad-4935-9d45-9d6be93f63e8@framatube.org".to_string())
        })
    );
    assert_eq!(
        ParsedUrl::from_url("https://video.ploud.fr/search?search=what%20is%20peertube&searchTarget=local"),
        Some(ParsedUrl {
            instance: "https://video.ploud.fr".to_string(),
            url_data: UrlType::Search("what is peertube".to_string())
        })
    );
    assert_eq!(
        ParsedUrl::from_url("https://video.ploud.fr"),
        Some(ParsedUrl { instance: "https://video.ploud.fr".to_string(), url_data: UrlType::LandingPage })
    );
}

#[test]
fn not_an_address() {
    assert_eq!(ParsedUrl::from_url("what is peertube"), None);
    assert_eq!(ParsedUrl::from_url("ftp://video.ploud.fr"), None);
}
