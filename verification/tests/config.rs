use peertube_viewer::config::{
    concat_words, Args, Blocklist, Config, ConfigLoadError, EditMode, EnvValue, InitialInfo, NsfwBehavior, ReadFailure,
    TomlValue, USER_AGENT,
};

/// A configuration file that sets every option.
const FULL_CONFIG: &str = r#"
[general]
nsfw = "block"
browser = "qutebrowser"
select-quality = true
edit-mode = "vi"
colors = "disable"
user-agent = "Mozilla/5.0 (X11; Linux x86_64; rv:79.0) Gecko/20100101 Firefox/79.0"

[player]
command = "mpv"
args = ["--volume=30"]
use-raw-urls = true
prefer-hls = false

[torrent]
command = "webtorrent"
args = ["-a"]

[instances]
main = "skeptikon.fr"
blocklist = ["peertube.social"]
"#;

/// A configuration file that writes out the defaults.
const DEFAULT_CONFIG: &str = r#"
[general]
nsfw = "tag"
colors = "enable"
edit-mode = "emacs"

[player]
command = "mpv"
use-raw-urls = false
prefer-hls = true
"#;

fn strings(v: &[&str]) -> Vec<String> {
    v.iter().map(|s| s.to_string()).collect()
}

fn load(text: &str, is_default: bool) -> (Config, Vec<ConfigLoadError>) {
    Config::from_file_text(EnvValue::Unset, Ok(text.to_string()), "config.toml", is_default)
}

#[test]
fn load_config_then_args() {
    let (mut config, mut errors) = load(FULL_CONFIG, false);
    assert_eq!(errors.len(), 0);
    assert_eq!(config.nsfw(), NsfwBehavior::Block);
    assert_eq!(config.player(), "mpv");
    assert_eq!(*config.player_args(), vec!["--volume=30"]);
    assert_eq!(config.instance(), "https://skeptikon.fr");
    assert_eq!(config.browser(), "qutebrowser");
    assert!(config.is_blocked("peertube.social").is_some());
    assert_eq!(config.use_raw_url(), true);
    assert_eq!(config.select_quality(), true);
    assert_eq!(config.prefer_hls(), false);
    assert_eq!(config.edit_mode(), EditMode::Vi);
    assert_eq!(
        config.user_agent(),
        Some("Mozilla/5.0 (X11; Linux x86_64; rv:79.0) Gecko/20100101 Firefox/79.0".into())
    );

    let args = Args {
        player: Some("args-player".to_string()),
        player_args: Some(strings(&["--no-video"])),
        instance: Some("args.ploud.fr".to_string()),
        use_raw_urls: true,
        let_nsfw: true,
        select_quality: true,
        ..Default::default()
    };
    errors = config.update_with_args(&args);
    assert_eq!(errors.len(), 0);
    assert_eq!(config.nsfw(), NsfwBehavior::Let);
    assert_eq!(config.player(), "args-player");
    assert_eq!(*config.player_args(), vec!["--volume=30", "--no-video"]);
    assert_eq!(config.instance(), "https://args.ploud.fr");
    assert_eq!(config.select_quality(), true);
    assert_eq!(config.use_raw_url(), true);
    assert_eq!(config.edit_mode(), EditMode::Vi);
}

#[test]
fn torrent_options() {
    let (mut config, mut errors) = load(FULL_CONFIG, false);
    assert_eq!(errors.len(), 0);
    assert_eq!(config.nsfw(), NsfwBehavior::Block);
    assert_eq!(config.player(), "mpv");
    assert_eq!(*config.player_args(), vec!["--volume=30"]);
    assert_eq!(config.instance(), "https://skeptikon.fr");
    assert!(config.is_blocked("peertube.social").is_some());
    assert_eq!(config.use_raw_url(), true);
    assert_eq!(config.select_quality(), true);
    assert_eq!(config.use_torrent(), false);
    assert_eq!(config.colors(), false);

    let args = Args {
        torrent_downloader: Some("args-downloader".to_string()),
        torrent_downloader_arguments: Some(strings(&["test"])),
        torrent: true,
        color: true,
        ..Default::default()
    };
    errors = config.update_with_args(&args);
    assert_eq!(errors.len(), 0);
    assert_eq!(config.player(), "args-downloader");
    assert_eq!(*config.player_args(), vec!["test", "-a"]);
    assert_eq!(config.use_torrent(), true);
    assert_eq!(config.colors(), true);
}

#[test]
fn default_config_example() {
    let (config, errors) = load(DEFAULT_CONFIG, true);
    assert_eq!(config.prefer_hls(), true);
    assert_eq!(errors.len(), 0);
    assert_eq!(config, Config::with_browser_env(None));
}

#[test]
fn unknown_file() {
    let read = Err(ReadFailure { not_found: true, message: "No such file or directory (os error 2)".to_string() });
    let (config, errors) = Config::from_file_text(EnvValue::Unset, read, "does/not/exists.toml", false);
    assert_eq!(config.prefer_hls(), true);
    assert_eq!(errors.len(), 1);
    assert!(errors[0].is_unreadable());
    assert_eq!(config, Config::with_browser_env(None));
}

#[test]
fn default_no_file() {
    let read = Err(ReadFailure { not_found: true, message: "No such file or directory (os error 2)".to_string() });
    let (config, errors) = Config::from_file_text(EnvValue::Unset, read, "does/not/exists.toml", true);
    assert_eq!(config.prefer_hls(), true);
    assert_eq!(errors.len(), 0);
    assert_eq!(config, Config::with_browser_env(None));
}

#[test]
fn initial_query() {
    let (mut config, errors) = load(DEFAULT_CONFIG, false);
    let args = Args { initial_query: Some(strings(&["What", "is", "peertube"])), ..Default::default() };
    let initial_info = config.initial_info(&args);
    assert_eq!(errors.len(), 0, "{errors:?}");
    assert_eq!(initial_info, InitialInfo::Query("What is peertube".into()));
}

#[test]
fn initial_channel_search() {
    let (mut config, errors) = load(DEFAULT_CONFIG, false);
    let args = Args { channels: true, initial_query: Some(strings(&["What", "is", "peertube"])), ..Default::default() };
    let initial_info = config.initial_info(&args);
    assert_eq!(errors.len(), 0, "{errors:?}");
    assert_eq!(initial_info, InitialInfo::Channels("What is peertube".into()));
}

#[test]
fn initial_video_address_sets_the_instance() {
    let mut config = Config::with_browser_env(None);
    let args = Args {
        initial_query: Some(strings(&["https://video.ploud.fr/videos/watch/9c9de5e8-0a1e-484a-b099-e80766180a6d"])),
        ..Default::default()
    };
    let info = config.initial_info(&args);
    assert_eq!(info, InitialInfo::VideoUrl("9c9de5e8-0a1e-484a-b099-e80766180a6d".into()));
    assert_eq!(config.instance(), "https://video.ploud.fr");
    assert!(!config.is_search_engine());
}

#[test]
fn initial_landing_page_searches_the_words() {
    let mut config = Config::with_browser_env(None);
    let args = Args { initial_query: Some(strings(&["https://video.ploud.fr", "cats"])), ..Default::default() };
    let info = config.initial_info(&args);
    assert_eq!(info, InitialInfo::Query("https://video.ploud.fr cats".into()));
    assert_eq!(config.instance(), "https://video.ploud.fr");
    assert!(config.is_search_engine());
}

#[test]
fn initial_trending_and_handle() {
    let mut config = Config::with_browser_env(None);
    let args = Args { trending: true, chandle: Some("a@b".into()), ..Default::default() };
    assert_eq!(config.initial_info(&args), InitialInfo::Trending);
    let args = Args { chandle: Some("a@b".into()), ..Default::default() };
    assert_eq!(config.initial_info(&args), InitialInfo::Handle("a@b".into()));
    let args = Args::default();
    let mut info = config.initial_info(&args);
    assert_eq!(info, InitialInfo::Empty);
    info = InitialInfo::Trending;
    assert_eq!(info.take(), InitialInfo::Trending);
    assert_eq!(info, InitialInfo::Empty);
}

#[test]
fn defaults() {
    let config = Config::with_browser_env(Some("lynx".into()));
    assert_eq!(config.browser(), "lynx");
    assert_eq!(config.instance(), "https://sepiasearch.org");
    assert!(config.is_search_engine());
    assert_eq!(config.user_agent(), Some(USER_AGENT.to_string()));
    assert_eq!(config.max_hist_lines(), 2000);
    assert_eq!(config.nsfw(), NsfwBehavior::Tag);
    assert!(config.colors());
    assert!(!config.local());
    assert!(config.is_blocked("any.org").is_none());
}

#[test]
fn bad_tags_and_values_are_reported() {
    let text = r#"
[general]
nsfw = "hide"
colors = "rainbow"
edit-mode = "ed"
user-agent = false
[player]
args = ["ok", 3]
[instances]
allowlist = ["a.org"]
main = 12
"#;
    let (config, errors) = load(text, false);
    assert_eq!(errors.len(), 5);
    assert_eq!(
        errors[1].message(),
        "\"hide\" is not a valid tag for nsfw\nValid tags are: [\"tag\", \"block\", \"let\"]\nUsing default: \"tag\""
    );
    assert_eq!(errors[0].message(), "The elements of args needs to be Strings\n Ignoring bad arguments");
    assert_eq!(
        errors[4].message(),
        "instance : search-engine and instance: main needs to be Strings\n Ignoring bad arguments"
    );
    assert_eq!(config.nsfw(), NsfwBehavior::Tag);
    assert_eq!(config.user_agent(), None);
    assert_eq!(*config.player_args(), vec!["ok"]);
    assert!(config.is_blocked("b.org").is_some());
    assert!(config.is_blocked("a.org").is_none());
}

#[test]
fn main_and_search_engine_conflict() {
    let text = "[instances]\nmain = \"a.org\"\nsearch-engine = \"http://b.org/\"\n";
    let (config, errors) = load(text, false);
    assert_eq!(errors.len(), 1);
    assert_eq!(
        errors[0].message(),
        "instances: main and instances: search-engine cannot appear at the same time in the config.\nUsing the search engine provided"
    );
    assert_eq!(config.instance(), "https://b.org");
}

#[test]
fn broken_toml_and_environment() {
    let (config, errors) =
        Config::from_file_text(EnvValue::NotUnicode("fire\u{fffd}".into()), Ok("[general".into()), "c.toml", false);
    assert_eq!(errors.len(), 2);
    assert_eq!(errors[0].message(), "Environnment variable BROWSER is not utf8.");
    assert!(errors[1].message().starts_with("The config was not parsable as TOML:\n"));
    assert_eq!(config.browser(), "firefox");
    let (_, errors) = Config::from_parsed(EnvValue::Valid("w3m".into()), &Ok(String::new()), "c.toml", false, Ok(TomlValue::Integer(3)));
    assert_eq!(errors.len(), 1);
    assert_eq!(
        errors[0].message(),
        "The config file is malformed, it should be a TOML table\nUsing default config"
    );
}

#[test]
fn use_torrent_without_downloader() {
    let mut config = Config::with_browser_env(None);
    let args = Args { torrent: true, ..Default::default() };
    let errors = config.update_with_args(&args);
    assert_eq!(errors.len(), 1);
    assert_eq!(errors[0].message(), "--use-torrent requires a torrent to be set\nUsing player instead of torrent");
    assert!(!config.use_torrent());
}

#[test]
fn args_search_engine_and_local() {
    let mut config = Config::with_browser_env(None);
    let args = Args { search_engine: Some("http://search.org".into()), local: true, no_color: true, ..Default::default() };
    config.update_with_args(&args);
    assert_eq!(config.instance(), "https://search.org");
    assert!(config.is_search_engine());
    assert!(config.local());
    assert!(!config.colors());
}

#[test]
fn words_are_joined_with_spaces() {
    assert_eq!(concat_words(&strings(&[])), "");
    assert_eq!(concat_words(&strings(&["a"])), "a");
    assert_eq!(concat_words(&strings(&["a", "b", "c"])), "a b c");
}
