//! The configuration: defaults, the config file, then the command line.
use vstd::prelude::*;
use crate::text::{push_char, str_eq};
use crate::utils::{to_https, to_https_spec, lemma_to_https_is_https};
use crate::history::strings_view;
use crate::url_parser::{ParsedUrl, UrlType, UrlTypeView, parsed_view, url_outcome};
use crate::api::video::Video;

verus! {

broadcast use vstd::string::group_string_axioms;

/// The tags allowed for `nsfw`.
pub const NSFW_ALLOWED: [&'static str; 3] = ["tag", "block", "let"];

/// The tags allowed for `colors`.
pub const COLORS_ALLOWED: [&'static str; 2] = ["enable", "disable"];

/// The tags allowed for `edit-mode`.
pub const EDIT_MODE_ALLOWED: [&'static str; 2] = ["emacs", "vi"];

/// The user agent sent by default.
pub const USER_AGENT: &'static str = "peertube-viewer-rs/1.8.1";

/// Something that can refuse items.
pub trait Blocklist<T: ?Sized> {
    /// Why `item` is refused, if it is.
    fn is_blocked(&self, item: &T) -> Option<String>;
}

impl<T: ?Sized> Blocklist<T> for () {
    fn is_blocked(&self, _item: &T) -> (r: Option<String>)
        ensures
            r is None,
    {
        None
    }
}

/// What is done with videos marked as not safe for work.
#[derive(PartialEq, Eq, Debug, Clone, Copy, Structural)]
pub enum NsfwBehavior {
    Block,
    Tag,
    Let,
}

impl NsfwBehavior {
    /// Are such videos hidden?
    pub fn is_block(self) -> (r: bool)
        ensures
            r == (self == NsfwBehavior::Block),
    {
        self == NsfwBehavior::Block
    }
}

/// The key bindings of the prompt.
#[derive(PartialEq, Eq, Debug, Clone, Copy, Structural)]
pub enum EditMode {
    Emacs,
    Vi,
}

/// What the command line asks to show first.
#[derive(PartialEq, Eq, Debug, Clone)]
pub enum InitialInfo {
    Empty,
    Query(String),
    VideoUrl(String),
    Channels(String),
    Handle(String),
    Trending,
}

impl InitialInfo {
    /// Takes the value out, leaving `None` in its place.
    pub fn take(&mut self) -> (r: InitialInfo)
        ensures
            r == *old(self),
            *final(self) == InitialInfo::Empty,
    {
        let mut tmp = InitialInfo::Empty;
        std::mem::swap(&mut tmp, self);
        tmp
    }
}

/// The value of an [`InitialInfo`].
pub enum InitialView {
    Empty,
    Query(Seq<char>),
    VideoUrl(Seq<char>),
    Channels(Seq<char>),
    Handle(Seq<char>),
    Trending,
}

impl View for InitialInfo {
    type V = InitialView;

    open spec fn view(&self) -> InitialView {
        match self {
            InitialInfo::Empty => InitialView::Empty,
            InitialInfo::Query(s) => InitialView::Query(s@),
            InitialInfo::VideoUrl(s) => InitialView::VideoUrl(s@),
            InitialInfo::Channels(s) => InitialView::Channels(s@),
            InitialInfo::Handle(s) => InitialView::Handle(s@),
            InitialInfo::Trending => InitialView::Trending,
        }
    }
}

/// The player of videos (or downloader of torrents), with its arguments.
#[derive(Debug, PartialEq)]
pub struct TorrentConf {
    pub client: String,
    pub args: Vec<String>,
}

/// The video player and how it is given videos.
#[derive(Debug, PartialEq)]
pub struct PlayerConf {
    pub client: String,
    pub args: Vec<String>,
    pub use_raw_urls: bool,
    pub prefer_hls: bool,
}

/// Why a part of the configuration was not taken.
#[derive(Debug, PartialEq)]
pub enum ConfigLoadError {
    /// The file (second field) could not be read; the first field says why.
    UnreadableFile(String, String),
    /// The file is not TOML; the field says why.
    TomlError(String),
    UseTorrentAndNoInfo,
    NotATable,
    NotAString(String),
    NonUtf8EnvironmentVariable { name: &'static str, provided: String },
    IncorrectTag { name: &'static str, provided: String, allowed: &'static [&'static str] },
    ConflicingOptions(String, String),
}

/// The value of a [`ConfigLoadError`].
pub enum LoadErrorView {
    UnreadableFile(Seq<char>, Seq<char>),
    TomlError(Seq<char>),
    UseTorrentAndNoInfo,
    NotATable,
    NotAString(Seq<char>),
    NonUtf8EnvironmentVariable(Seq<char>, Seq<char>),
    IncorrectTag(Seq<char>, Seq<char>, Seq<&'static str>),
    ConflicingOptions(Seq<char>, Seq<char>),
}

impl View for ConfigLoadError {
    type V = LoadErrorView;

    open spec fn view(&self) -> LoadErrorView {
        match self {
            ConfigLoadError::UnreadableFile(e, p) => LoadErrorView::UnreadableFile(e@, p@),
            ConfigLoadError::TomlError(e) => LoadErrorView::TomlError(e@),
            ConfigLoadError::UseTorrentAndNoInfo => LoadErrorView::UseTorrentAndNoInfo,
            ConfigLoadError::NotATable => LoadErrorView::NotATable,
            ConfigLoadError::NotAString(s) => LoadErrorView::NotAString(s@),
            ConfigLoadError::NonUtf8EnvironmentVariable { name, provided } => LoadErrorView::NonUtf8EnvironmentVariable(name@, provided@),
            ConfigLoadError::IncorrectTag { name, provided, allowed } => LoadErrorView::IncorrectTag(name@, provided@, allowed@),
            ConfigLoadError::ConflicingOptions(a, b) => LoadErrorView::ConflicingOptions(a@, b@),
        }
    }
}

/// The values of a list of errors.
pub open spec fn errors_view(v: Seq<ConfigLoadError>) -> Seq<LoadErrorView> {
    v.map_values(|e: ConfigLoadError| e@)
}

impl ConfigLoadError {
    /// Is it the error of a file that could not be read?
    pub fn is_unreadable(&self) -> (r: bool)
        ensures
            r == (self@ is UnreadableFile),
    {
        match self {
            ConfigLoadError::UnreadableFile(_, _) => true,
            _ => false,
        }
    }
}

/// The values of a list of static strings.
pub open spec fn static_strs(v: Seq<&'static str>) -> Seq<Seq<char>> {
    v.map_values(|s: &'static str| s@)
}

/// How `{:?}` writes a list of strings.
pub uninterp spec fn debug_text(items: Seq<Seq<char>>) -> Seq<char>;

/// Writes `items` as `{:?}` does (std's `Debug` for slices of `&str`).
#[verifier::external_body]
fn debug_strs(items: &[&'static str]) -> (r: String)
    ensures
        r@ == debug_text(static_strs(items@)),
{
    format!("{:?}", items)
}

/// The text that tells the user of an error.
pub open spec fn error_message(e: LoadErrorView) -> Seq<char> {
    match e {
        LoadErrorView::UnreadableFile(err, path) => "Unable to read the config file at \""@ + path + "\":\n"@ + err
            + "\nUsing default config"@,
        LoadErrorView::TomlError(err) => "The config was not parsable as TOML:\n"@ + err + "\nUsing default config"@,
        LoadErrorView::NonUtf8EnvironmentVariable(name, _) => "Environnment variable "@ + name + " is not utf8."@,
        LoadErrorView::IncorrectTag(name, provided, allowed) => "\""@ + provided + "\" is not a valid tag for "@ + name
            + "\nValid tags are: "@ + debug_text(static_strs(allowed)) + "\nUsing default: \""@ + allowed[0]@ + "\""@,
        LoadErrorView::NotATable => "The config file is malformed, it should be a TOML table\nUsing default config"@,
        LoadErrorView::NotAString(what) => what + " needs to be Strings\n Ignoring bad arguments"@,
        LoadErrorView::UseTorrentAndNoInfo => "--use-torrent requires a torrent to be set\nUsing player instead of torrent"@,
        LoadErrorView::ConflicingOptions(first, second) => first + " and "@ + second
            + " cannot appear at the same time in the config.\nUsing the search engine provided"@,
    }
}

impl ConfigLoadError {
    /// The text that tells the user of the error.
    pub fn message(&self) -> (r: String)
        requires
            self@ matches LoadErrorView::IncorrectTag(_, _, allowed) ==> allowed.len() > 0,
        ensures
            r@ == error_message(self@),
    {
        match self {
            ConfigLoadError::UnreadableFile(err, path) => {
                let mut m = String::from_str("Unable to read the config file at \"");
                m.append(path.as_str());
                m.append("\":\n");
                m.append(err.as_str());
                m.append("\nUsing default config");
                m
            },
            ConfigLoadError::TomlError(err) => {
                let mut m = String::from_str("The config was not parsable as TOML:\n");
                m.append(err.as_str());
                m.append("\nUsing default config");
                m
            },
            ConfigLoadError::NonUtf8EnvironmentVariable { name, provided: _ } => {
                let mut m = String::from_str("Environnment variable ");
                m.append(name);
                m.append(" is not utf8.");
                m
            },
            ConfigLoadError::IncorrectTag { name, provided, allowed } => {
                let mut m = String::from_str("\"");
                m.append(provided.as_str());
                m.append("\" is not a valid tag for ");
                m.append(name);
                m.append("\nValid tags are: ");
                let listed = debug_strs(allowed);
                m.append(listed.as_str());
                m.append("\nUsing default: \"");
                m.append(allowed[0]);
                m.append("\"");
                m
            },
            ConfigLoadError::NotATable => String::from_str(
                "The config file is malformed, it should be a TOML table\nUsing default config",
            ),
            ConfigLoadError::NotAString(what) => {
                let mut m = what.clone();
                m.append(" needs to be Strings\n Ignoring bad arguments");
                m
            },
            ConfigLoadError::UseTorrentAndNoInfo => String::from_str(
                "--use-torrent requires a torrent to be set\nUsing player instead of torrent",
            ),
            ConfigLoadError::ConflicingOptions(first, second) => {
                let mut m = first.clone();
                m.append(" and ");
                m.append(second.as_str());
                m.append(" cannot appear at the same time in the config.\nUsing the search engine provided");
                m
            },
        }
    }
}

/// The configuration of the command line interface.
#[derive(Debug, PartialEq)]
pub struct Config {
    player: PlayerConf,
    instance: String,
    is_search_engine: bool,
    torrent: Option<(TorrentConf, bool)>,
    listed_instances: Vec<String>,
    is_allowlist: bool,
    user_agent: Option<String>,
    edit_mode: EditMode,
    browser: String,
    nsfw: NsfwBehavior,
    select_quality: bool,
    colors: bool,
    local: bool,
    max_hist_lines: usize,
}

/// The value of a [`Config`].
pub struct ConfigView {
    pub player_client: Seq<char>,
    pub player_args: Seq<Seq<char>>,
    pub use_raw_urls: bool,
    pub prefer_hls: bool,
    pub instance: Seq<char>,
    pub is_search_engine: bool,
    /// The torrent downloader, its arguments, and whether it is used.
    pub torrent: Option<(Seq<char>, Seq<Seq<char>>, bool)>,
    pub listed_instances: Set<Seq<char>>,
    pub is_allowlist: bool,
    pub user_agent: Option<Seq<char>>,
    pub edit_mode: EditMode,
    pub browser: Seq<char>,
    pub nsfw: NsfwBehavior,
    pub select_quality: bool,
    pub colors: bool,
    pub local: bool,
    pub max_hist_lines: nat,
}

/// The value of an optional string.
pub open spec fn opt_str(o: Option<String>) -> Option<Seq<char>> {
    match o {
        Some(s) => Some(s@),
        None => None,
    }
}

impl View for Config {
    type V = ConfigView;

    closed spec fn view(&self) -> ConfigView {
        ConfigView {
            player_client: self.player.client@,
            player_args: strings_view(self.player.args@),
            use_raw_urls: self.player.use_raw_urls,
            prefer_hls: self.player.prefer_hls,
            instance: self.instance@,
            is_search_engine: self.is_search_engine,
            torrent: torrent_view(self.torrent),
            listed_instances: strings_view(self.listed_instances@).to_set(),
            is_allowlist: self.is_allowlist,
            user_agent: opt_str(self.user_agent),
            edit_mode: self.edit_mode,
            browser: self.browser@,
            nsfw: self.nsfw,
            select_quality: self.select_quality,
            colors: self.colors,
            local: self.local,
            max_hist_lines: self.max_hist_lines as nat,
        }
    }
}

/// The configuration before any file or argument: `browser_env` is the
/// `BROWSER` variable of the environment, when it is set and valid unicode.
pub open spec fn default_view(browser_env: Option<Seq<char>>) -> ConfigView {
    ConfigView {
        player_client: "mpv"@,
        player_args: Seq::empty(),
        use_raw_urls: false,
        prefer_hls: true,
        instance: "https://sepiasearch.org"@,
        is_search_engine: true,
        torrent: None,
        listed_instances: Set::empty(),
        is_allowlist: false,
        user_agent: Some(USER_AGENT@),
        edit_mode: EditMode::Emacs,
        browser: match browser_env {
            Some(b) => b,
            None => "firefox"@,
        },
        nsfw: NsfwBehavior::Tag,
        select_quality: false,
        colors: true,
        local: false,
        max_hist_lines: 2000,
    }
}

/// The command line, as the configuration reads it.
#[derive(Debug, Clone, Default)]
pub struct Args {
    pub print_default_config: bool,
    pub print_full_config: bool,
    pub config_file: Option<String>,
    pub trending: bool,
    pub chandle: Option<String>,
    pub channels: bool,
    pub initial_query: Option<Vec<String>>,
    pub let_nsfw: bool,
    pub block_nsfw: bool,
    pub tag_nsfw: bool,
    pub local: bool,
    pub instance: Option<String>,
    pub search_engine: Option<String>,
    pub torrent_downloader: Option<String>,
    pub torrent_downloader_arguments: Option<Vec<String>>,
    pub torrent: bool,
    pub player: Option<String>,
    pub player_args: Option<Vec<String>>,
    pub use_raw_urls: bool,
    pub select_quality: bool,
    pub color: bool,
    pub no_color: bool,
}

/// The values of an optional list of strings.
pub open spec fn opt_strings(o: Option<Vec<String>>) -> Option<Seq<Seq<char>>> {
    match o {
        Some(v) => Some(strings_view(v@)),
        None => None,
    }
}

/// The torrent downloader after the command line: it is set when the
/// configuration or the command line names one; arguments given on the
/// command line come before those of the configuration.
pub open spec fn torrent_after_args(
    old: Option<(Seq<char>, Seq<Seq<char>>, bool)>,
    client: Option<Seq<char>>,
    args: Option<Seq<Seq<char>>>,
    use_torrent: bool,
) -> Option<(Seq<char>, Seq<Seq<char>>, bool)> {
    match (old, client, args) {
        (None, Some(c), None) => Some((c, Seq::empty(), use_torrent)),
        (None, Some(c), Some(a)) => Some((c, a, use_torrent)),
        (Some((oc, oa, _)), client, args) => Some(
            (
                match client {
                    Some(c) => c,
                    None => oc,
                },
                match args {
                    Some(a) => a + oa,
                    None => oa,
                },
                use_torrent,
            ),
        ),
        _ => None,
    }
}

/// The command line's choice for videos not safe for work, and `--local`.
pub open spec fn nsfw_step(c: ConfigView, a: Args) -> ConfigView {
    ConfigView {
        nsfw: if a.let_nsfw {
            NsfwBehavior::Let
        } else if a.block_nsfw {
            NsfwBehavior::Block
        } else if a.tag_nsfw {
            NsfwBehavior::Tag
        } else {
            c.nsfw
        },
        local: a.local,
        ..c
    }
}

/// The command line's instance, or search engine.
pub open spec fn instance_step(c: ConfigView, a: Args) -> ConfigView {
    match (a.instance, a.search_engine) {
        (Some(i), _) => ConfigView { instance: to_https_spec(i@), is_search_engine: false, ..c },
        (None, Some(s)) => ConfigView { instance: to_https_spec(s@), is_search_engine: true, ..c },
        (None, None) => c,
    }
}

/// The command line's torrent downloader.
pub open spec fn torrent_step(c: ConfigView, a: Args) -> ConfigView {
    ConfigView {
        torrent: torrent_after_args(
            c.torrent,
            opt_str(a.torrent_downloader),
            opt_strings(a.torrent_downloader_arguments),
            a.torrent,
        ),
        ..c
    }
}

/// The command line's player and player arguments (added after those of the configuration).
pub open spec fn player_step(c: ConfigView, a: Args) -> ConfigView {
    ConfigView {
        player_client: match a.player {
            Some(p) => p@,
            None => c.player_client,
        },
        player_args: match a.player_args {
            Some(v) => c.player_args + strings_view(v@),
            None => c.player_args,
        },
        ..c
    }
}

/// The command line's switches: raw addresses, quality selection, colors.
pub open spec fn flags_step(c: ConfigView, a: Args) -> ConfigView {
    ConfigView {
        use_raw_urls: a.use_raw_urls || c.use_raw_urls,
        select_quality: a.select_quality || c.select_quality,
        colors: if a.color {
            true
        } else if a.no_color {
            false
        } else {
            c.colors
        },
        ..c
    }
}

/// The configuration once the command line `a` is applied to `c`.
pub open spec fn with_args(c: ConfigView, a: Args) -> ConfigView {
    flags_step(player_step(torrent_step(instance_step(nsfw_step(c, a), a), a), a), a)
}

/// The errors that the command line `a` raises on `c`: `--use-torrent` with
/// no torrent downloader anywhere.
pub open spec fn args_errors(c: ConfigView, a: Args) -> Seq<LoadErrorView> {
    if c.torrent is None && a.torrent && a.torrent_downloader is None {
        seq![LoadErrorView::UseTorrentAndNoInfo]
    } else {
        Seq::empty()
    }
}

/// A copy of a list of strings.
pub fn clone_strings(v: &Vec<String>) -> (r: Vec<String>)
    ensures
        strings_view(r@) == strings_view(v@),
{
    let mut r: Vec<String> = Vec::new();
    let mut i: usize = 0;
    while i < v.len()
        invariant
            i <= v@.len(),
            strings_view(r@) == strings_view(v@).take(i as int),
        decreases v@.len() - i,
    {
        let c = v[i].clone();
        assert(c@ == strings_view(v@)[i as int]);
        let ghost before = strings_view(r@);
        r.push(c);
        assert(strings_view(r@) =~= before.push(c@));
        assert(strings_view(v@).take(i + 1) =~= strings_view(v@).take(i as int).push(c@));
        i += 1;
    }
    assert(strings_view(v@).take(v@.len() as int) =~= strings_view(v@));
    r
}

/// Appends a copy of the strings of `more` to `v`.
pub fn append_strings(v: &mut Vec<String>, more: &Vec<String>)
    ensures
        strings_view(final(v)@) == strings_view(old(v)@) + strings_view(more@),
{
    let mut i: usize = 0;
    while i < more.len()
        invariant
            i <= more@.len(),
            strings_view(v@) == strings_view(old(v)@) + strings_view(more@).take(i as int),
        decreases more@.len() - i,
    {
        let c = more[i].clone();
        assert(c@ == strings_view(more@)[i as int]);
        let ghost before = strings_view(v@);
        v.push(c);
        assert(strings_view(v@) =~= before.push(c@));
        assert(strings_view(more@).take(i + 1) =~= strings_view(more@).take(i as int).push(c@));
        assert(strings_view(v@) =~= strings_view(old(v)@) + strings_view(more@).take(i + 1));
        i += 1;
    }
    assert(strings_view(more@).take(more@.len() as int) =~= strings_view(more@));
}

/// Does `v` hold the string `s`?
pub fn holds_str(v: &Vec<String>, s: &str) -> (r: bool)
    ensures
        r == strings_view(v@).to_set().contains(s@),
{
    let mut i: usize = 0;
    while i < v.len()
        invariant
            i <= v@.len(),
            forall|j: int| 0 <= j < i ==> strings_view(v@)[j] != s@,
        decreases v@.len() - i,
    {
        if str_eq(v[i].as_str(), s) {
            assert(strings_view(v@)[i as int] == s@);
            assert(strings_view(v@).contains(s@));
            return true;
        }
        i += 1;
    }
    false
}

/// The value of an optional torrent downloader.
pub open spec fn torrent_view(t: Option<(TorrentConf, bool)>) -> Option<(Seq<char>, Seq<Seq<char>>, bool)> {
    match t {
        Some((t, used)) => Some((t.client@, strings_view(t.args@), used)),
        None => None,
    }
}

/// The torrent downloader once the command line is applied.
fn merged_torrent(previous: Option<(TorrentConf, bool)>, args: &Args) -> (r: Option<(TorrentConf, bool)>)
    ensures
        torrent_view(r) == torrent_after_args(
            torrent_view(previous),
            opt_str(args.torrent_downloader),
            opt_strings(args.torrent_downloader_arguments),
            args.torrent,
        ),
{
    let use_torrent = args.torrent;
    let client = match &args.torrent_downloader {
        Some(c) => Some(c.clone()),
        None => None,
    };
    let torrent_args = match &args.torrent_downloader_arguments {
        Some(a) => Some(clone_strings(a)),
        None => None,
    };
    match (previous, client, torrent_args) {
        (None, Some(client), None) => {
            let empty: Vec<String> = Vec::new();
            assert(strings_view(empty@) =~= Seq::<Seq<char>>::empty());
            Some((TorrentConf { client, args: empty }, use_torrent))
        },
        (None, Some(client), Some(a)) => Some((TorrentConf { client, args: a }, use_torrent)),
        (Some((conf, _)), client, torrent_args) => {
            let TorrentConf { client: conf_client, args: conf_args } = conf;
            let new_client = match client {
                Some(c) => c,
                None => conf_client,
            };
            let new_args = match torrent_args {
                Some(a) => {
                    let mut a = a;
                    append_strings(&mut a, &conf_args);
                    a
                },
                None => conf_args,
            };
            Some((TorrentConf { client: new_client, args: new_args }, use_torrent))
        },
        _ => None,
    }
}

impl Config {
    /// The configuration before any file or argument, with the value of the
    /// `BROWSER` variable of the environment when it is set and valid unicode.
    pub fn with_browser_env(browser_env: Option<String>) -> (r: Config)
        ensures
            r@ == default_view(opt_str(browser_env)),
    {
        let r = Config {
            player: PlayerConf {
                client: String::from_str("mpv"),
                args: Vec::new(),
                use_raw_urls: false,
                prefer_hls: true,
            },
            instance: String::from_str("https://sepiasearch.org"),
            is_search_engine: true,
            torrent: None,
            listed_instances: Vec::new(),
            is_allowlist: false,
            user_agent: Some(String::from_str(USER_AGENT)),
            edit_mode: EditMode::Emacs,
            browser: match browser_env {
                Some(b) => b,
                None => String::from_str("firefox"),
            },
            nsfw: NsfwBehavior::Tag,
            select_quality: false,
            colors: true,
            local: false,
            max_hist_lines: 2000,
        };
        assert(strings_view(r.player.args@) =~= Seq::<Seq<char>>::empty());
        assert(strings_view(r.listed_instances@).to_set() =~= Set::<Seq<char>>::empty());
        r
    }

    fn apply_nsfw(&mut self, args: &Args)
        ensures
            final(self)@ == nsfw_step(old(self)@, *args),
    {
        if args.let_nsfw {
            self.nsfw = NsfwBehavior::Let;
        } else if args.block_nsfw {
            self.nsfw = NsfwBehavior::Block;
        } else if args.tag_nsfw {
            self.nsfw = NsfwBehavior::Tag;
        }
        self.local = args.local;
    }

    fn apply_instance(&mut self, args: &Args)
        ensures
            final(self)@ == instance_step(old(self)@, *args),
    {
        if let Some(i) = &args.instance {
            self.instance = to_https(i.as_str());
            self.is_search_engine = false;
        } else if let Some(s) = &args.search_engine {
            self.instance = to_https(s.as_str());
            self.is_search_engine = true;
        }
    }

    fn apply_torrent(&mut self, args: &Args)
        ensures
            final(self)@ == torrent_step(old(self)@, *args),
    {
        let previous = self.torrent.take();
        self.torrent = merged_torrent(previous, args);
    }

    fn apply_player(&mut self, args: &Args)
        ensures
            final(self)@ == player_step(old(self)@, *args),
    {
        if let Some(c) = &args.player {
            self.player.client = c.clone();
        }
        if let Some(v) = &args.player_args {
            append_strings(&mut self.player.args, v);
        }
    }

    fn apply_flags(&mut self, args: &Args)
        ensures
            final(self)@ == flags_step(old(self)@, *args),
    {
        if args.use_raw_urls {
            self.player.use_raw_urls = true;
        }
        if args.select_quality {
            self.select_quality = true;
        }
        if args.color {
            self.colors = true;
        } else if args.no_color {
            self.colors = false;
        }
    }

    /// Applies the command line to the configuration; gives the errors it raises.
    pub fn update_with_args(&mut self, args: &Args) -> (r: Vec<ConfigLoadError>)
        ensures
            final(self)@ == with_args(old(self)@, *args),
            errors_view(r@) == args_errors(old(self)@, *args),
    {
        let mut load_errors: Vec<ConfigLoadError> = Vec::new();
        self.apply_nsfw(args);
        self.apply_instance(args);
        if self.torrent.is_none() && args.torrent && args.torrent_downloader.is_none() {
            load_errors.push(ConfigLoadError::UseTorrentAndNoInfo);
        }
        self.apply_torrent(args);
        self.apply_player(args);
        self.apply_flags(args);
        proof {
            if load_errors@.len() == 1 {
                assert(errors_view(load_errors@) =~= seq![LoadErrorView::UseTorrentAndNoInfo]);
            } else {
                assert(errors_view(load_errors@) =~= Seq::<LoadErrorView>::empty());
            }
        }
        load_errors
    }

    /// The player: the torrent downloader when it is used.
    pub fn player(&self) -> (r: &str)
        ensures
            r@ == (match self@.torrent {
                Some((c, _, true)) => c,
                _ => self@.player_client,
            }),
    {
        match &self.torrent {
            Some((tor, true)) => tor.client.as_str(),
            _ => self.player.client.as_str(),
        }
    }

    /// The arguments of the player: those of the torrent downloader when it is used.
    pub fn player_args(&self) -> (r: &Vec<String>)
        ensures
            strings_view(r@) == (match self@.torrent {
                Some((_, a, true)) => a,
                _ => self@.player_args,
            }),
    {
        match &self.torrent {
            Some((tor, true)) => &tor.args,
            _ => &self.player.args,
        }
    }

    /// Are videos given to the player by their raw address?
    pub fn use_raw_url(&self) -> (r: bool)
        ensures
            r == self@.use_raw_urls,
    {
        self.player.use_raw_urls
    }

    /// Are streams preferred to files?
    pub fn prefer_hls(&self) -> (r: bool)
        ensures
            r == self@.prefer_hls,
    {
        self.player.prefer_hls
    }

    /// The instance to connect to.
    pub fn instance(&self) -> (r: &str)
        ensures
            r@ == self@.instance,
    {
        self.instance.as_str()
    }

    /// The browser that opens items.
    pub fn browser(&self) -> (r: &str)
        ensures
            r@ == self@.browser,
    {
        self.browser.as_str()
    }

    /// Are videos downloaded by torrent?
    pub fn use_torrent(&self) -> (r: bool)
        ensures
            r == (self@.torrent matches Some((_, _, true))),
    {
        match &self.torrent {
            Some((_, true)) => true,
            _ => false,
        }
    }

    /// The number of watched videos kept.
    pub fn max_hist_lines(&self) -> (r: usize)
        ensures
            r == self@.max_hist_lines,
    {
        self.max_hist_lines
    }

    /// Is the quality chosen before playing?
    pub fn select_quality(&self) -> (r: bool)
        ensures
            r == self@.select_quality,
    {
        self.select_quality
    }

    /// Are only the videos of the instance shown?
    pub fn local(&self) -> (r: bool)
        ensures
            r == self@.local,
    {
        self.local
    }

    /// Is the output colored?
    pub fn colors(&self) -> (r: bool)
        ensures
            r == self@.colors,
    {
        self.colors
    }

    /// What is done with videos not safe for work.
    pub fn nsfw(&self) -> (r: NsfwBehavior)
        ensures
            r == self@.nsfw,
    {
        self.nsfw
    }

    /// The key bindings of the prompt.
    pub fn edit_mode(&self) -> (r: EditMode)
        ensures
            r == self@.edit_mode,
    {
        self.edit_mode
    }

    /// The user agent sent, if any.
    pub fn user_agent(&self) -> (r: Option<String>)
        ensures
            opt_str(r) == self@.user_agent,
    {
        match &self.user_agent {
            Some(u) => Some(u.clone()),
            None => None,
        }
    }

    /// Is the instance a search engine?
    pub fn is_search_engine(&self) -> (r: bool)
        ensures
            r == self@.is_search_engine,
    {
        self.is_search_engine
    }

    /// Is the instance `instance` refused? An allowlist refuses the instances
    /// it does not name, a blocklist those it names.
    pub fn is_blocked_instance(&self, instance: &str) -> (r: Option<String>)
        ensures
            (r is Some) == (self@.is_allowlist != self@.listed_instances.contains(instance@)),
            (match r {
                Some(s) => s@ == instance@,
                None => true,
            }),
    {
        if self.is_allowlist != holds_str(&self.listed_instances, instance) {
            Some(String::from_str(instance))
        } else {
            None
        }
    }
}

impl Blocklist<str> for Config {
    fn is_blocked(&self, instance: &str) -> (r: Option<String>)
        ensures
            (r is Some) == (self@.is_allowlist != self@.listed_instances.contains(instance@)),
            (match r {
                Some(s) => s@ == instance@,
                None => true,
            }),
    {
        self.is_blocked_instance(instance)
    }
}

impl Blocklist<Video> for Config {
    fn is_blocked(&self, video: &Video) -> (r: Option<String>)
        ensures
            (r is Some) == (self@.is_allowlist != self@.listed_instances.contains(video@.account.host@)),
            (match r {
                Some(s) => s@ == "Blocked video from: "@ + video@.account.host@,
                None => true,
            }),
    {
        if self.is_allowlist != holds_str(&self.listed_instances, video.host()) {
            let mut m = String::from_str("Blocked video from: ");
            m.append(video.host());
            Some(m)
        } else {
            None
        }
    }
}

/// The words of `v` joined by single spaces.
pub open spec fn joined(v: Seq<Seq<char>>) -> Seq<char>
    decreases v.len(),
{
    if v.len() == 0 {
        Seq::empty()
    } else if v.len() == 1 {
        v[0]
    } else {
        joined(v.drop_last()) + seq![' '] + v.last()
    }
}

/// Joins the words of `v` with single spaces.
pub fn concat_words(v: &Vec<String>) -> (r: String)
    ensures
        r@ == joined(strings_view(v@)),
{
    let ghost sv = strings_view(v@);
    let mut concatenated = String::new();
    if v.len() > 0 {
        concatenated.append(v[0].as_str());
        assert(sv.take(1) =~= seq![sv[0]]);
    }
    let mut i: usize = 1;
    while i < v.len()
        invariant
            1 <= i,
            v@.len() > 0 ==> i <= v@.len(),
            sv == strings_view(v@),
            v@.len() > 0 ==> concatenated@ == joined(sv.take(i as int)),
            v@.len() == 0 ==> concatenated@ == Seq::<char>::empty(),
        decreases v@.len() - i,
    {
        push_char(&mut concatenated, ' ');
        concatenated.append(v[i].as_str());
        assert(sv.take(i + 1).drop_last() =~= sv.take(i as int));
        i += 1;
    }
    proof {
        if v@.len() > 0 {
            assert(sv.take(v@.len() as int) =~= sv);
        } else {
            assert(sv =~= Seq::<Seq<char>>::empty());
        }
    }
    concatenated
}

/// A value of a TOML document, as far as the configuration reads it.
#[derive(Debug, PartialEq)]
pub enum TomlValue {
    String(String),
    Integer(i64),
    Boolean(bool),
    Array(Vec<TomlValue>),
    /// The entries of a table, each key once.
    Table(Vec<(String, TomlValue)>),
    /// A float or a date-time, which the configuration never reads.
    Other,
}

/// The value of the first entry named `key`.
pub open spec fn lookup(t: Seq<(String, TomlValue)>, key: Seq<char>) -> Option<TomlValue>
    decreases t.len(),
{
    if t.len() == 0 {
        None
    } else if t[0].0@ == key {
        Some(t[0].1)
    } else {
        lookup(t.drop_first(), key)
    }
}

/// The entries of the table named `name`; none when there is no such table.
pub open spec fn section(t: Seq<(String, TomlValue)>, name: Seq<char>) -> Seq<(String, TomlValue)> {
    match lookup(t, name) {
        Some(TomlValue::Table(s)) => s@,
        _ => Seq::empty(),
    }
}

/// The strings of an array, in order.
pub open spec fn str_items(v: Seq<TomlValue>) -> Seq<Seq<char>>
    decreases v.len(),
{
    if v.len() == 0 {
        Seq::empty()
    } else {
        str_items(v.drop_last()) + match v.last() {
            TomlValue::String(s) => seq![s@],
            _ => Seq::empty(),
        }
    }
}

/// The number of items of an array that are not strings.
pub open spec fn non_str_count(v: Seq<TomlValue>) -> nat
    decreases v.len(),
{
    if v.len() == 0 {
        0
    } else {
        non_str_count(v.drop_last()) + match v.last() {
            TomlValue::String(_) => 0nat,
            _ => 1nat,
        }
    }
}

/// The strings of the array named `name` (none when it is no array).
pub open spec fn string_array(t: Seq<(String, TomlValue)>, name: Seq<char>) -> Seq<Seq<char>> {
    match lookup(t, name) {
        Some(TomlValue::Array(v)) => str_items(v@),
        _ => Seq::empty(),
    }
}

/// One error for each item of the array named `name` that is not a string.
pub open spec fn string_array_errors(t: Seq<(String, TomlValue)>, name: Seq<char>) -> Seq<LoadErrorView> {
    match lookup(t, name) {
        Some(TomlValue::Array(v)) => Seq::new(
            non_str_count(v@),
            |i: int| LoadErrorView::NotAString("The elements of "@ + name),
        ),
        _ => Seq::empty(),
    }
}

/// The string named `key`, if it is a string.
pub open spec fn str_entry(t: Seq<(String, TomlValue)>, key: Seq<char>) -> Option<Seq<char>> {
    match lookup(t, key) {
        Some(TomlValue::String(s)) => Some(s@),
        _ => None,
    }
}

/// The boolean named `key`, if it is a boolean.
pub open spec fn bool_entry(t: Seq<(String, TomlValue)>, key: Seq<char>) -> Option<bool> {
    match lookup(t, key) {
        Some(TomlValue::Boolean(b)) => Some(b),
        _ => None,
    }
}

/// Finds the entry named `key`.
pub fn table_get<'a>(t: &'a Vec<(String, TomlValue)>, key: &str) -> (r: Option<&'a TomlValue>)
    ensures
        (match r {
            Some(v) => lookup(t@, key@) == Some(*v),
            None => lookup(t@, key@) is None,
        }),
{
    let mut i: usize = 0;
    assert(t@.skip(0) =~= t@);
    while i < t.len()
        invariant
            i <= t@.len(),
            lookup(t@, key@) == lookup(t@.skip(i as int), key@),
        decreases t@.len() - i,
    {
        assert(t@.skip(i as int)[0] == t@[i as int]);
        if str_eq(t[i].0.as_str(), key) {
            return Some(&t[i].1);
        }
        assert(t@.skip(i as int).drop_first() =~= t@.skip(i + 1));
        i += 1;
    }
    None
}

/// Reads the array of strings named `name`; adds an error for each item that is not a string.
pub fn get_string_array(t: &Vec<(String, TomlValue)>, name: &str, load_errors: &mut Vec<ConfigLoadError>) -> (r: Vec<String>)
    ensures
        strings_view(r@) == string_array(t@, name@),
        errors_view(final(load_errors)@) == errors_view(old(load_errors)@) + string_array_errors(t@, name@),
{
    let mut r: Vec<String> = Vec::new();
    match table_get(t, name) {
        Some(TomlValue::Array(v)) => {
            let mut i: usize = 0;
            while i < v.len()
                invariant
                    i <= v@.len(),
                    strings_view(r@) == str_items(v@.take(i as int)),
                    errors_view(load_errors@) == errors_view(old(load_errors)@) + Seq::new(
                        non_str_count(v@.take(i as int)),
                        |k: int| LoadErrorView::NotAString("The elements of "@ + name@),
                    ),
                decreases v@.len() - i,
            {
                let ghost before_r = strings_view(r@);
                let ghost before_e = errors_view(load_errors@);
                assert(v@.take(i + 1).drop_last() =~= v@.take(i as int));
                assert(v@.take(i + 1).last() == v@[i as int]);
                match &v[i] {
                    TomlValue::String(s) => {
                        let c = s.clone();
                        r.push(c);
                        assert(strings_view(r@) =~= before_r + seq![s@]);
                        assert(non_str_count(v@.take(i + 1)) == non_str_count(v@.take(i as int)));
                        assert(errors_view(load_errors@) =~= errors_view(old(load_errors)@) + Seq::new(
                            non_str_count(v@.take(i + 1)),
                            |k: int| LoadErrorView::NotAString("The elements of "@ + name@),
                        ));
                    },
                    _ => {
                        let mut msg = String::from_str("The elements of ");
                        msg.append(name);
                        assert(msg@ == "The elements of "@ + name@);
                        load_errors.push(ConfigLoadError::NotAString(msg));
                        assert(non_str_count(v@.take(i + 1)) == non_str_count(v@.take(i as int)) + 1);
                        assert(errors_view(load_errors@) =~= before_e.push(
                            LoadErrorView::NotAString("The elements of "@ + name@),
                        ));
                        assert(strings_view(r@) =~= before_r + Seq::<Seq<char>>::empty());
                        assert(errors_view(load_errors@) =~= errors_view(old(load_errors)@) + Seq::new(
                            non_str_count(v@.take(i + 1)),
                            |k: int| LoadErrorView::NotAString("The elements of "@ + name@),
                        ));
                    },
                }
                i += 1;
            }
            assert(v@.take(v@.len() as int) =~= v@);
        },
        _ => {
            assert(strings_view(r@) =~= Seq::<Seq<char>>::empty());
            assert(errors_view(load_errors@) =~= errors_view(old(load_errors)@) + Seq::<LoadErrorView>::empty());
        },
    }
    r
}

/// The `BROWSER` variable of the environment.
#[derive(Debug, Clone)]
pub enum EnvValue {
    Unset,
    Valid(String),
    /// Set, but not valid unicode; the field holds it with the invalid parts replaced.
    NotUnicode(String),
}

/// Why the configuration file could not be read.
#[derive(Debug, Clone)]
pub struct ReadFailure {
    /// The file does not exist.
    pub not_found: bool,
    pub message: String,
}

/// The browser the environment asks for.
pub open spec fn env_browser(e: EnvValue) -> Seq<char> {
    match e {
        EnvValue::Valid(b) => b@,
        _ => "firefox"@,
    }
}

/// The error that the environment raises.
pub open spec fn env_errors(e: EnvValue) -> Seq<LoadErrorView> {
    match e {
        EnvValue::NotUnicode(p) => seq![LoadErrorView::NonUtf8EnvironmentVariable("BROWSER"@, p@)],
        _ => Seq::empty(),
    }
}

/// The error that reading the file raises: only a missing file that was
/// asked for by name is reported.
pub open spec fn read_errors(read: Result<String, ReadFailure>, path: Seq<char>, is_default: bool) -> Seq<LoadErrorView> {
    match read {
        Err(f) => if !is_default && f.not_found {
            seq![LoadErrorView::UnreadableFile(f.message@, path)]
        } else {
            Seq::empty()
        },
        Ok(_) => Seq::empty(),
    }
}

/// The text of the file; empty when it could not be read.
pub open spec fn read_text(read: Result<String, ReadFailure>) -> Seq<char> {
    match read {
        Ok(s) => s@,
        Err(_) => Seq::empty(),
    }
}

/// A parsed document, with its error message by value.
pub open spec fn document_view(parsed: Result<TomlValue, String>) -> Result<TomlValue, Seq<char>> {
    match parsed {
        Ok(v) => Ok(v),
        Err(e) => Err(e@),
    }
}

/// The entries of the document; none unless it is a table.
pub open spec fn document_table(parsed: Result<TomlValue, Seq<char>>) -> Seq<(String, TomlValue)> {
    match parsed {
        Ok(TomlValue::Table(t)) => t@,
        _ => Seq::empty(),
    }
}

/// The error of a document that is no table of TOML.
pub open spec fn document_errors(parsed: Result<TomlValue, Seq<char>>) -> Seq<LoadErrorView> {
    match parsed {
        Ok(TomlValue::Table(_)) => Seq::empty(),
        Ok(_) => seq![LoadErrorView::NotATable],
        Err(e) => seq![LoadErrorView::TomlError(e)],
    }
}

/// The string named `key`, or `default`.
pub open spec fn str_or(t: Seq<(String, TomlValue)>, key: Seq<char>, default: Seq<char>) -> Seq<char> {
    match str_entry(t, key) {
        Some(s) => s,
        None => default,
    }
}

/// The value of `nsfw` in the section `general`.
pub open spec fn nsfw_entry(g: Seq<(String, TomlValue)>) -> NsfwBehavior {
    match str_entry(g, "nsfw"@) {
        Some(s) => if s == "block"@ {
            NsfwBehavior::Block
        } else if s == "let"@ {
            NsfwBehavior::Let
        } else {
            NsfwBehavior::Tag
        },
        None => NsfwBehavior::Tag,
    }
}

/// The error of a tag named `key` outside `allowed`.
pub open spec fn tag_errors(g: Seq<(String, TomlValue)>, key: Seq<char>, allowed: Seq<&'static str>) -> Seq<LoadErrorView> {
    match str_entry(g, key) {
        Some(s) => if exists|j: int| 0 <= j < allowed.len() && allowed[j]@ == s {
            Seq::empty()
        } else {
            seq![LoadErrorView::IncorrectTag(key, s, allowed)]
        },
        None => Seq::empty(),
    }
}

/// The value of `colors` in the section `general`.
pub open spec fn colors_entry(g: Seq<(String, TomlValue)>) -> bool {
    str_entry(g, "colors"@) != Some("disable"@)
}

/// The value of `edit-mode` in the section `general`.
pub open spec fn edit_mode_entry(g: Seq<(String, TomlValue)>) -> EditMode {
    if str_entry(g, "edit-mode"@) == Some("vi"@) {
        EditMode::Vi
    } else {
        EditMode::Emacs
    }
}

/// The value of `user-agent` in the section `general`: `false` sends none.
pub open spec fn user_agent_entry(g: Seq<(String, TomlValue)>) -> Option<Seq<char>> {
    match lookup(g, "user-agent"@) {
        Some(TomlValue::String(s)) => Some(s@),
        Some(TomlValue::Boolean(false)) => None,
        _ => Some(USER_AGENT@),
    }
}

/// The key of the list of instances: the first of `allowlist`, `blocklist`,
/// `whitelist` that is present, else `blacklist`.
pub open spec fn list_key(ins: Seq<(String, TomlValue)>) -> Seq<char> {
    if lookup(ins, "allowlist"@) is Some {
        "allowlist"@
    } else if lookup(ins, "blocklist"@) is Some {
        "blocklist"@
    } else if lookup(ins, "whitelist"@) is Some {
        "whitelist"@
    } else {
        "blacklist"@
    }
}

/// Does the list of instances name the only ones allowed?
pub open spec fn allows_listed(ins: Seq<(String, TomlValue)>) -> bool {
    lookup(ins, "allowlist"@) is Some || (lookup(ins, "blocklist"@) is None && lookup(ins, "whitelist"@) is Some)
}

/// The instance the section `instances` names: `search-engine` wins over `main`.
pub open spec fn instance_choice(ins: Seq<(String, TomlValue)>) -> Option<Seq<char>> {
    match (lookup(ins, "main"@), lookup(ins, "search-engine"@)) {
        (_, Some(TomlValue::String(s))) => Some(to_https_spec(s@)),
        (Some(TomlValue::String(m)), None) => Some(to_https_spec(m@)),
        _ => None,
    }
}

/// The error of the section `instances`: both `main` and `search-engine`,
/// or one of them that is no string.
pub open spec fn instance_errors(ins: Seq<(String, TomlValue)>) -> Seq<LoadErrorView> {
    match (lookup(ins, "main"@), lookup(ins, "search-engine"@)) {
        (None, None) => Seq::empty(),
        (Some(_), Some(TomlValue::String(_))) => seq![
            LoadErrorView::ConflicingOptions("instances: main"@, "instances: search-engine"@),
        ],
        (None, Some(TomlValue::String(_))) => Seq::empty(),
        (Some(TomlValue::String(_)), None) => Seq::empty(),
        _ => seq![LoadErrorView::NotAString("instance : search-engine and instance: main"@)],
    }
}

/// The torrent downloader the section `torrent` names; it is not used until asked.
pub open spec fn torrent_entry(tor: Seq<(String, TomlValue)>) -> Option<(Seq<char>, Seq<Seq<char>>, bool)> {
    match str_entry(tor, "command"@) {
        Some(c) => Some((c, string_array(tor, "args"@), false)),
        None => None,
    }
}

/// The configuration that the entries `t` of a file give, with `browser` from the environment.
pub open spec fn file_view(browser: Seq<char>, t: Seq<(String, TomlValue)>) -> ConfigView {
    let p = section(t, "player"@);
    let tor = section(t, "torrent"@);
    let g = section(t, "general"@);
    let ins = section(t, "instances"@);
    ConfigView {
        player_client: str_or(p, "command"@, "mpv"@),
        player_args: string_array(p, "args"@),
        use_raw_urls: bool_entry(p, "use-raw-urls"@) == Some(true),
        prefer_hls: bool_entry(p, "prefer-hls"@) != Some(false),
        instance: match instance_choice(ins) {
            Some(i) => i,
            None => "https://sepiasearch.org"@,
        },
        is_search_engine: true,
        torrent: torrent_entry(tor),
        listed_instances: string_array(ins, list_key(ins)).to_set(),
        is_allowlist: allows_listed(ins),
        user_agent: user_agent_entry(g),
        edit_mode: edit_mode_entry(g),
        browser: str_or(g, "browser"@, browser),
        nsfw: nsfw_entry(g),
        select_quality: bool_entry(g, "select-quality"@) == Some(true),
        colors: colors_entry(g),
        local: false,
        max_hist_lines: 2000,
    }
}

/// The errors that the entries `t` of a file raise, in the order they are met.
pub open spec fn file_errors(t: Seq<(String, TomlValue)>) -> Seq<LoadErrorView> {
    let p = section(t, "player"@);
    let tor = section(t, "torrent"@);
    let g = section(t, "general"@);
    let ins = section(t, "instances"@);
    string_array_errors(p, "args"@)
        + (if str_entry(tor, "command"@) is Some { string_array_errors(tor, "args"@) } else { Seq::empty() })
        + tag_errors(g, "nsfw"@, NSFW_ALLOWED@)
        + tag_errors(g, "colors"@, COLORS_ALLOWED@)
        + tag_errors(g, "edit-mode"@, EDIT_MODE_ALLOWED@)
        + string_array_errors(ins, list_key(ins))
        + instance_errors(ins)
}

/// The entries of the table named `name`, if there is one.
fn section_of<'a>(t: &'a Vec<(String, TomlValue)>, name: &str) -> (r: Option<&'a Vec<(String, TomlValue)>>)
    ensures
        (match r {
            Some(s) => s@ == section(t@, name@),
            None => section(t@, name@) == Seq::<(String, TomlValue)>::empty(),
        }),
{
    match table_get(t, name) {
        Some(TomlValue::Table(s)) => Some(s),
        _ => None,
    }
}

/// The string named `key`, or `default`.
fn get_str_or(t: &Vec<(String, TomlValue)>, key: &str, default: &str) -> (r: String)
    ensures
        r@ == str_or(t@, key@, default@),
{
    match table_get(t, key) {
        Some(TomlValue::String(s)) => s.clone(),
        _ => String::from_str(default),
    }
}

/// The boolean named `key`, if it is one.
fn get_bool(t: &Vec<(String, TomlValue)>, key: &str) -> (r: Option<bool>)
    ensures
        r == bool_entry(t@, key@),
{
    match table_get(t, key) {
        Some(TomlValue::Boolean(b)) => Some(*b),
        _ => None,
    }
}

/// Reads the tag `nsfw` of the section `general`.
fn read_nsfw(g: &Vec<(String, TomlValue)>, load_errors: &mut Vec<ConfigLoadError>) -> (r: NsfwBehavior)
    ensures
        r == nsfw_entry(g@),
        errors_view(final(load_errors)@) == errors_view(old(load_errors)@) + tag_errors(g@, "nsfw"@, NSFW_ALLOWED@),
{
    let ghost before = errors_view(load_errors@);
    let allowed: &'static [&'static str] = &NSFW_ALLOWED;
    assert(allowed@ == NSFW_ALLOWED@);
    assert(allowed@[0]@ == "tag"@ && allowed@[1]@ == "block"@ && allowed@[2]@ == "let"@);
    match table_get(g, "nsfw") {
        Some(TomlValue::String(s)) => {
            if str_eq(s.as_str(), "block") {
                NsfwBehavior::Block
            } else if str_eq(s.as_str(), "let") {
                NsfwBehavior::Let
            } else if str_eq(s.as_str(), "tag") {
                NsfwBehavior::Tag
            } else {
                load_errors.push(ConfigLoadError::IncorrectTag { name: "nsfw", provided: s.clone(), allowed });
                assert(errors_view(load_errors@) =~= before + tag_errors(g@, "nsfw"@, NSFW_ALLOWED@));
                NsfwBehavior::Tag
            }
        },
        _ => {
            assert(errors_view(load_errors@) =~= before + tag_errors(g@, "nsfw"@, NSFW_ALLOWED@));
            NsfwBehavior::Tag
        },
    }
}

/// Reads the tag `colors` of the section `general`.
fn read_colors(g: &Vec<(String, TomlValue)>, load_errors: &mut Vec<ConfigLoadError>) -> (r: bool)
    ensures
        r == colors_entry(g@),
        errors_view(final(load_errors)@) == errors_view(old(load_errors)@) + tag_errors(g@, "colors"@, COLORS_ALLOWED@),
{
    let ghost before = errors_view(load_errors@);
    let allowed: &'static [&'static str] = &COLORS_ALLOWED;
    assert(allowed@ == COLORS_ALLOWED@);
    assert(allowed@[0]@ == "enable"@ && allowed@[1]@ == "disable"@);
    match table_get(g, "colors") {
        Some(TomlValue::String(s)) => {
            if str_eq(s.as_str(), "enable") {
                proof {
                    reveal_strlit("enable");
                    reveal_strlit("disable");
                }
                assert("enable"@[0] != "disable"@[0]);
                assert(s@ != "disable"@);
                true
            } else if str_eq(s.as_str(), "disable") {
                false
            } else {
                load_errors.push(ConfigLoadError::IncorrectTag { name: "colors", provided: s.clone(), allowed });
                assert(errors_view(load_errors@) =~= before + tag_errors(g@, "colors"@, COLORS_ALLOWED@));
                true
            }
        },
        _ => {
            assert(errors_view(load_errors@) =~= before + tag_errors(g@, "colors"@, COLORS_ALLOWED@));
            true
        },
    }
}

/// Reads the tag `edit-mode` of the section `general`.
fn read_edit_mode(g: &Vec<(String, TomlValue)>, load_errors: &mut Vec<ConfigLoadError>) -> (r: EditMode)
    ensures
        r == edit_mode_entry(g@),
        errors_view(final(load_errors)@) == errors_view(old(load_errors)@) + tag_errors(g@, "edit-mode"@, EDIT_MODE_ALLOWED@),
{
    let ghost before = errors_view(load_errors@);
    let allowed: &'static [&'static str] = &EDIT_MODE_ALLOWED;
    assert(allowed@ == EDIT_MODE_ALLOWED@);
    assert(allowed@[0]@ == "emacs"@ && allowed@[1]@ == "vi"@);
    match table_get(g, "edit-mode") {
        Some(TomlValue::String(s)) => {
            if str_eq(s.as_str(), "vi") {
                EditMode::Vi
            } else if str_eq(s.as_str(), "emacs") {
                EditMode::Emacs
            } else {
                load_errors.push(ConfigLoadError::IncorrectTag { name: "edit-mode", provided: s.clone(), allowed });
                assert(errors_view(load_errors@) =~= before + tag_errors(g@, "edit-mode"@, EDIT_MODE_ALLOWED@));
                EditMode::Emacs
            }
        },
        _ => {
            assert(errors_view(load_errors@) =~= before + tag_errors(g@, "edit-mode"@, EDIT_MODE_ALLOWED@));
            EditMode::Emacs
        },
    }
}

/// Reads the instance of the section `instances`; reports a conflict or a value that is no string.
fn read_instance(ins: &Vec<(String, TomlValue)>, load_errors: &mut Vec<ConfigLoadError>) -> (r: Option<String>)
    ensures
        opt_str(r) == instance_choice(ins@),
        errors_view(final(load_errors)@) == errors_view(old(load_errors)@) + instance_errors(ins@),
{
    let ghost before = errors_view(load_errors@);
    let main = table_get(ins, "main");
    let search = table_get(ins, "search-engine");
    let r = match (main, search) {
        (None, None) => None,
        (Some(_), Some(TomlValue::String(search))) => {
            load_errors.push(ConfigLoadError::ConflicingOptions(
                String::from_str("instances: main"),
                String::from_str("instances: search-engine"),
            ));
            Some(to_https(search.as_str()))
        },
        (None, Some(TomlValue::String(search))) => Some(to_https(search.as_str())),
        (Some(TomlValue::String(instance)), None) => Some(to_https(instance.as_str())),
        _ => {
            load_errors.push(ConfigLoadError::NotAString(
                String::from_str("instance : search-engine and instance: main"),
            ));
            None
        },
    };
    assert(errors_view(load_errors@) =~= before + instance_errors(ins@));
    r
}

/// Reads the list of instances of the section `instances`, and whether it allows or blocks them.
fn read_list(ins: &Vec<(String, TomlValue)>, load_errors: &mut Vec<ConfigLoadError>) -> (r: (Vec<String>, bool))
    ensures
        strings_view(r.0@) == string_array(ins@, list_key(ins@)),
        r.1 == allows_listed(ins@),
        errors_view(final(load_errors)@) == errors_view(old(load_errors)@) + string_array_errors(ins@, list_key(ins@)),
{
    if table_get(ins, "allowlist").is_some() {
        (get_string_array(ins, "allowlist", load_errors), true)
    } else if table_get(ins, "blocklist").is_some() {
        (get_string_array(ins, "blocklist", load_errors), false)
    } else if table_get(ins, "whitelist").is_some() {
        (get_string_array(ins, "whitelist", load_errors), true)
    } else {
        (get_string_array(ins, "blacklist", load_errors), false)
    }
}

/// The declaration of the TOML value of the `toml` crate.
#[verifier::external_type_specification]
#[verifier::external_body]
pub struct ExTomlValue(toml::Value);

/// What `toml` parses `text` into, the message of its error by value.
pub uninterp spec fn toml_document(text: Seq<char>) -> Result<TomlValue, Seq<char>>;

/// A TOML value in the library's terms: floats and date-times, which the
/// configuration never reads, become `Other`; a table keeps the order of its keys.
#[verifier::external_body]
fn toml_value_of(v: toml::Value) -> TomlValue {
    match v {
        toml::Value::String(s) => TomlValue::String(s),
        toml::Value::Integer(i) => TomlValue::Integer(i),
        toml::Value::Float(_) => TomlValue::Other,
        toml::Value::Boolean(b) => TomlValue::Boolean(b),
        toml::Value::Datetime(_) => TomlValue::Other,
        toml::Value::Array(a) => TomlValue::Array(a.into_iter().map(toml_value_of).collect()),
        toml::Value::Table(t) => TomlValue::Table(t.into_iter().map(|(k, v)| (k, toml_value_of(v))).collect()),
    }
}

/// Parses `text` with `toml`'s `FromStr` for `toml::Value`; the contract
/// claims only that the outcome is a function of the text, named `toml_document`.
#[verifier::external_body]
fn parse_toml(text: &str) -> (r: Result<TomlValue, String>)
    ensures
        document_view(r) == toml_document(text@),
{
    match text.parse::<toml::Value>() {
        Ok(v) => Ok(toml_value_of(v)),
        Err(e) => Err(e.to_string()),
    }
}

/// The player that the section `player` describes.
fn player_from(p: &Vec<(String, TomlValue)>, load_errors: &mut Vec<ConfigLoadError>) -> (r: PlayerConf)
    ensures
        r.client@ == str_or(p@, "command"@, "mpv"@),
        strings_view(r.args@) == string_array(p@, "args"@),
        r.use_raw_urls == (bool_entry(p@, "use-raw-urls"@) == Some(true)),
        r.prefer_hls == (bool_entry(p@, "prefer-hls"@) != Some(false)),
        errors_view(final(load_errors)@) == errors_view(old(load_errors)@) + string_array_errors(p@, "args"@),
{
    PlayerConf {
        client: get_str_or(p, "command", "mpv"),
        args: get_string_array(p, "args", load_errors),
        use_raw_urls: match get_bool(p, "use-raw-urls") {
            Some(b) => b,
            None => false,
        },
        prefer_hls: match get_bool(p, "prefer-hls") {
            Some(b) => b,
            None => true,
        },
    }
}

/// The torrent downloader that the section `torrent` describes; its
/// arguments are read only when it names a command.
fn torrent_from(tor: &Vec<(String, TomlValue)>, load_errors: &mut Vec<ConfigLoadError>) -> (r: Option<(TorrentConf, bool)>)
    ensures
        torrent_view(r) == torrent_entry(tor@),
        errors_view(final(load_errors)@) == errors_view(old(load_errors)@) + (if str_entry(tor@, "command"@) is Some {
            string_array_errors(tor@, "args"@)
        } else {
            Seq::empty()
        }),
{
    let ghost before = errors_view(load_errors@);
    match table_get(tor, "command") {
        Some(TomlValue::String(c)) => {
            let args = get_string_array(tor, "args", load_errors);
            Some((TorrentConf { client: c.clone(), args }, false))
        },
        _ => {
            assert(errors_view(load_errors@) =~= before + Seq::<LoadErrorView>::empty());
            None
        },
    }
}

/// What the section `general` sets: the handling of videos not safe for
/// work, colors, key bindings, quality selection, user agent and browser
/// (`env_browser` when it names none).
fn general_from(g: &Vec<(String, TomlValue)>, env_browser: String, load_errors: &mut Vec<ConfigLoadError>) -> (r: (
    NsfwBehavior,
    bool,
    EditMode,
    bool,
    Option<String>,
    String,
))
    ensures
        r.0 == nsfw_entry(g@),
        r.1 == colors_entry(g@),
        r.2 == edit_mode_entry(g@),
        r.3 == (bool_entry(g@, "select-quality"@) == Some(true)),
        opt_str(r.4) == user_agent_entry(g@),
        r.5@ == str_or(g@, "browser"@, env_browser@),
        errors_view(final(load_errors)@) == errors_view(old(load_errors)@) + tag_errors(g@, "nsfw"@, NSFW_ALLOWED@)
            + tag_errors(g@, "colors"@, COLORS_ALLOWED@) + tag_errors(g@, "edit-mode"@, EDIT_MODE_ALLOWED@),
{
    let ghost before = errors_view(load_errors@);
    let nsfw = read_nsfw(g, load_errors);
    let colors = read_colors(g, load_errors);
    let edit_mode = read_edit_mode(g, load_errors);
    assert(errors_view(load_errors@) =~= before + tag_errors(g@, "nsfw"@, NSFW_ALLOWED@)
        + tag_errors(g@, "colors"@, COLORS_ALLOWED@) + tag_errors(g@, "edit-mode"@, EDIT_MODE_ALLOWED@));
    let select_quality = match get_bool(g, "select-quality") {
        Some(b) => b,
        None => false,
    };
    let user_agent = match table_get(g, "user-agent") {
        Some(TomlValue::String(u)) => Some(u.clone()),
        Some(TomlValue::Boolean(false)) => None,
        _ => Some(String::from_str(USER_AGENT)),
    };
    let browser = get_str_or(g, "browser", env_browser.as_str());
    (nsfw, colors, edit_mode, select_quality, user_agent, browser)
}

impl Config {
    /// The configuration from the environment's `browser` and the file at
    /// `path`: `read` is what reading it gave, `parsed` what `toml` made of
    /// its text; `is_default` tells a file asked for by name from the usual one.
    pub fn from_parsed(
        browser: EnvValue,
        read: &Result<String, ReadFailure>,
        path: &str,
        is_default: bool,
        parsed: Result<TomlValue, String>,
    ) -> (r: (Config, Vec<ConfigLoadError>))
        ensures
            r.0@ == file_view(env_browser(browser), document_table(document_view(parsed))),
            errors_view(r.1@) == env_errors(browser) + read_errors(*read, path@, is_default)
                + document_errors(document_view(parsed)) + file_errors(document_table(document_view(parsed))),
    {
        let ghost doc = document_table(document_view(parsed));
        let mut load_errors: Vec<ConfigLoadError> = Vec::new();
        let env_browser = match browser {
            EnvValue::Valid(b) => b,
            EnvValue::Unset => String::from_str("firefox"),
            EnvValue::NotUnicode(provided) => {
                load_errors.push(ConfigLoadError::NonUtf8EnvironmentVariable { name: "BROWSER", provided });
                String::from_str("firefox")
            },
        };
        assert(errors_view(load_errors@) =~= env_errors(browser));
        let ghost e1 = errors_view(load_errors@);
        match read {
            Err(f) => {
                if !is_default && f.not_found {
                    load_errors.push(ConfigLoadError::UnreadableFile(f.message.clone(), String::from_str(path)));
                }
            },
            Ok(_) => {},
        }
        assert(errors_view(load_errors@) =~= e1 + read_errors(*read, path@, is_default));
        let ghost e2 = errors_view(load_errors@);
        let empty: Vec<(String, TomlValue)> = Vec::new();
        let t: &Vec<(String, TomlValue)> = match &parsed {
            Ok(TomlValue::Table(t)) => t,
            Ok(_) => {
                load_errors.push(ConfigLoadError::NotATable);
                &empty
            },
            Err(e) => {
                load_errors.push(ConfigLoadError::TomlError(e.clone()));
                &empty
            },
        };
        assert(t@ == doc);
        assert(errors_view(load_errors@) =~= e2 + document_errors(document_view(parsed)));
        let config = Self::from_table(t, env_browser, &mut load_errors);
        (config, load_errors)
    }

    /// The configuration that the entries `t` of a file describe, with
    /// `env_browser` as the browser when they name none; adds the errors they raise.
    fn from_table(t: &Vec<(String, TomlValue)>, env_browser: String, load_errors: &mut Vec<ConfigLoadError>) -> (r: Config)
        ensures
            r@ == file_view(env_browser@, t@),
            errors_view(final(load_errors)@) == errors_view(old(load_errors)@) + file_errors(t@),
    {
        let ghost e3 = errors_view(load_errors@);
        let empty: Vec<(String, TomlValue)> = Vec::new();
        let p = match section_of(t, "player") {
            Some(p) => p,
            None => &empty,
        };
        let tor = match section_of(t, "torrent") {
            Some(tor) => tor,
            None => &empty,
        };
        let g = match section_of(t, "general") {
            Some(g) => g,
            None => &empty,
        };
        let ins = match section_of(t, "instances") {
            Some(ins) => ins,
            None => &empty,
        };
        let ghost mut acc: Seq<LoadErrorView> = Seq::empty();
        assert(errors_view(load_errors@) =~= e3 + acc);
        let player = player_from(p, load_errors);
        proof {
            let x = string_array_errors(p@, "args"@);
            vstd::seq_lib::lemma_concat_associative(e3, acc, x);
            acc = acc + x;
        }
        let torrent = torrent_from(tor, load_errors);
        proof {
            let x = if str_entry(tor@, "command"@) is Some {
                string_array_errors(tor@, "args"@)
            } else {
                Seq::empty()
            };
            vstd::seq_lib::lemma_concat_associative(e3, acc, x);
            acc = acc + x;
        }
        let (nsfw, colors, edit_mode, select_quality, user_agent, browser) = general_from(g, env_browser, load_errors);
        proof {
            let x1 = tag_errors(g@, "nsfw"@, NSFW_ALLOWED@);
            let x2 = tag_errors(g@, "colors"@, COLORS_ALLOWED@);
            let x3 = tag_errors(g@, "edit-mode"@, EDIT_MODE_ALLOWED@);
            vstd::seq_lib::lemma_concat_associative(e3, acc, x1);
            vstd::seq_lib::lemma_concat_associative(e3, acc + x1, x2);
            vstd::seq_lib::lemma_concat_associative(e3, acc + x1 + x2, x3);
            acc = acc + x1 + x2 + x3;
        }
        let (list, is_allowlist) = read_list(ins, load_errors);
        proof {
            let x = string_array_errors(ins@, list_key(ins@));
            vstd::seq_lib::lemma_concat_associative(e3, acc, x);
            acc = acc + x;
        }
        let instance = match read_instance(ins, load_errors) {
            Some(i) => i,
            None => String::from_str("https://sepiasearch.org"),
        };
        proof {
            let x = instance_errors(ins@);
            vstd::seq_lib::lemma_concat_associative(e3, acc, x);
            acc = acc + x;
        }
        let config = Config {
            player,
            instance,
            is_search_engine: true,
            torrent,
            listed_instances: list,
            is_allowlist,
            user_agent,
            edit_mode,
            browser,
            nsfw,
            select_quality,
            colors,
            local: false,
            max_hist_lines: 2000,
        };
        assert(p@ == section(t@, "player"@) && tor@ == section(t@, "torrent"@));
        assert(g@ == section(t@, "general"@) && ins@ == section(t@, "instances"@));
        assert(file_errors(t@) == acc);
        config
    }

    /// The configuration from the environment's `browser` and the file at
    /// `path`, given what reading it gave: its text is parsed as TOML, an
    /// unreadable file read as empty.
    pub fn from_file_text(browser: EnvValue, read: Result<String, ReadFailure>, path: &str, is_default: bool) -> (r: (
        Config,
        Vec<ConfigLoadError>,
    ))
        ensures
            r.0@ == file_view(env_browser(browser), document_table(toml_document(read_text(read)))),
            errors_view(r.1@) == env_errors(browser) + read_errors(read, path@, is_default)
                + document_errors(toml_document(read_text(read))) + file_errors(
                document_table(toml_document(read_text(read))),
            ),
    {
        let parsed = match &read {
            Ok(text) => parse_toml(text.as_str()),
            Err(_) => parse_toml(""),
        };
        proof {
            reveal_strlit("");
        }
        assert(""@ =~= Seq::<char>::empty());
        Self::from_parsed(browser, &read, path, is_default, parsed)
    }
}

/// Does the command line start from the words of a query (no trending,
/// channel handle or channel search asked)?
pub open spec fn starts_from_query(a: Args) -> bool {
    !a.trending && a.chandle is None && !a.channels && a.initial_query is Some
}

/// The words of the query on the command line; none when there is none.
pub open spec fn query_words(a: Args) -> Seq<Seq<char>> {
    match a.initial_query {
        Some(v) => strings_view(v@),
        None => Seq::empty(),
    }
}

/// What the command line asks to show first; `first` is what the first
/// word of the query reads as, when it is an address of the web interface.
pub open spec fn initial_view(a: Args, first: Option<(Seq<char>, UrlTypeView)>) -> InitialView {
    if a.trending {
        InitialView::Trending
    } else if a.chandle is Some {
        InitialView::Handle(opt_str(a.chandle)->0)
    } else if a.channels {
        InitialView::Channels(joined(query_words(a)))
    } else if a.initial_query is Some {
        match first {
            Some((_, UrlTypeView::Video(uuid))) => InitialView::VideoUrl(uuid),
            Some((_, UrlTypeView::Channel(handle))) => InitialView::Handle(handle),
            Some((_, UrlTypeView::Search(q))) => InitialView::Query(q),
            _ => InitialView::Query(joined(query_words(a))),
        }
    } else {
        InitialView::Empty
    }
}

/// The configuration once the first word of the query, an address of the
/// web interface, has chosen the instance: a video or a channel is browsed
/// on its instance, anything else searched through it.
pub open spec fn initial_config(c: ConfigView, a: Args, first: Option<(Seq<char>, UrlTypeView)>) -> ConfigView {
    if starts_from_query(a) {
        match first {
            Some((instance, t)) => ConfigView {
                instance,
                is_search_engine: !(t is Video || t is Channel),
                ..c
            },
            None => c,
        }
    } else {
        c
    }
}

impl Config {
    /// What the command line `args` asks to show first, given what its first
    /// word reads as (`first_url`); an address sets the instance.
    pub fn apply_initial(&mut self, args: &Args, first_url: Option<ParsedUrl>) -> (r: InitialInfo)
        ensures
            r@ == initial_view(*args, match first_url {
                Some(p) => Some(parsed_view(p)),
                None => None,
            }),
            final(self)@ == initial_config(old(self)@, *args, match first_url {
                Some(p) => Some(parsed_view(p)),
                None => None,
            }),
    {
        if args.trending {
            InitialInfo::Trending
        } else if let Some(s) = &args.chandle {
            InitialInfo::Handle(s.clone())
        } else if args.channels {
            match &args.initial_query {
                Some(v) => InitialInfo::Channels(concat_words(v)),
                None => {
                    let empty: Vec<String> = Vec::new();
                    assert(strings_view(empty@) =~= Seq::<Seq<char>>::empty());
                    InitialInfo::Channels(concat_words(&empty))
                },
            }
        } else if let Some(v) = &args.initial_query {
            match first_url {
                Some(parsed) => {
                    let ParsedUrl { instance, url_data } = parsed;
                    self.instance = instance;
                    match url_data {
                        UrlType::Video(uuid) => {
                            self.is_search_engine = false;
                            InitialInfo::VideoUrl(uuid)
                        },
                        UrlType::Channel(handle) => {
                            self.is_search_engine = false;
                            InitialInfo::Handle(handle)
                        },
                        UrlType::Search(q) => {
                            self.is_search_engine = true;
                            InitialInfo::Query(q)
                        },
                        UrlType::LandingPage => {
                            self.is_search_engine = true;
                            InitialInfo::Query(concat_words(v))
                        },
                    }
                },
                None => InitialInfo::Query(concat_words(v)),
            }
        } else {
            InitialInfo::Empty
        }
    }

    /// What the command line `args` asks to show first: the trending videos,
    /// a channel, a search of channels, or the words of a query, whose first
    /// word may be an address of the web interface that also sets the instance.
    pub fn initial_info(&mut self, args: &Args) -> (r: InitialInfo)
        requires
            (args.initial_query matches Some(v) ==> v@.len() > 0),
        ensures
            r@ == initial_view(*args, match args.initial_query {
                Some(v) => url_outcome(v@[0]@),
                None => None,
            }),
            final(self)@ == initial_config(old(self)@, *args, match args.initial_query {
                Some(v) => url_outcome(v@[0]@),
                None => None,
            }),
    {
        let first_url = match &args.initial_query {
            Some(v) => if !args.trending && args.chandle.is_none() && !args.channels {
                ParsedUrl::from_url(v[0].as_str())
            } else {
                None
            },
            None => None,
        };
        self.apply_initial(args, first_url)
    }
}

/// The browser that the environment names, if valid.
pub open spec fn env_browser_opt(e: EnvValue) -> Option<Seq<char>> {
    match e {
        EnvValue::Valid(b) => Some(b@),
        _ => None,
    }
}

/// A configuration file without entries gives the default configuration, and no error.
pub proof fn lemma_empty_file_is_default(e: EnvValue)
    ensures
        file_view(env_browser(e), Seq::empty()) == default_view(env_browser_opt(e)),
        file_errors(Seq::empty()) == Seq::<LoadErrorView>::empty(),
{
    let empty = Seq::<(String, TomlValue)>::empty();
    assert(section(empty, "instances"@) =~= empty);
    assert(string_array(empty, list_key(empty)) =~= Seq::<Seq<char>>::empty());
    assert(string_array(empty, list_key(empty)).to_set() =~= Set::<Seq<char>>::empty());
    assert(file_errors(empty) =~= Seq::<LoadErrorView>::empty());
}

/// The instance of a configuration is an `https://` address: the default
/// one, the one of a file, after the command line, and after an address on
/// the command line (read from its first word), when it was before.
pub proof fn lemma_instance_is_https(
    e: EnvValue,
    t: Seq<(String, TomlValue)>,
    c: ConfigView,
    a: Args,
    first_word: Seq<char>,
)
    requires
        "https://"@.is_prefix_of(c.instance),
    ensures
        "https://"@.is_prefix_of(default_view(env_browser_opt(e)).instance),
        "https://"@.is_prefix_of(file_view(env_browser(e), t).instance),
        "https://"@.is_prefix_of(with_args(c, a).instance),
        "https://"@.is_prefix_of(initial_config(c, a, url_outcome(first_word)).instance),
{
    reveal_strlit("https://");
    reveal_strlit("https://sepiasearch.org");
    let ins = section(t, "instances"@);
    match lookup(ins, "search-engine"@) {
        Some(TomlValue::String(s)) => lemma_to_https_is_https(s@),
        _ => {},
    }
    match lookup(ins, "main"@) {
        Some(TomlValue::String(m)) => lemma_to_https_is_https(m@),
        _ => {},
    }
    match a.instance {
        Some(i) => lemma_to_https_is_https(i@),
        None => {},
    }
    match a.search_engine {
        Some(s) => lemma_to_https_is_https(s@),
        None => {},
    }
    match url_outcome(first_word) {
        Some((instance, _)) => {
            assert(instance.take(8) =~= "https://"@);
        },
        None => {},
    }
}


/// The command-line switches for videos not safe for work each set the
/// behaviour they name, `--let-nsfw` before `--block-nsfw` before
/// `--tag-nsfw`; without any of them the configuration's behaviour stays.
/// `--local` is taken as given.
pub proof fn lemma_nsfw_switches(c: ConfigView, a: Args)
    ensures
        a.let_nsfw ==> with_args(c, a).nsfw == NsfwBehavior::Let,
        !a.let_nsfw && a.block_nsfw ==> with_args(c, a).nsfw == NsfwBehavior::Block,
        !a.let_nsfw && !a.block_nsfw && a.tag_nsfw ==> with_args(c, a).nsfw == NsfwBehavior::Tag,
        !a.let_nsfw && !a.block_nsfw && !a.tag_nsfw ==> with_args(c, a).nsfw == c.nsfw,
        with_args(c, a).local == a.local,
{
}

/// Each option of the command line overrides what it names in the
/// configuration, and leaves the rest as it was: the instance (made an
/// `https` address, a search engine only when given as one), the player and
/// its extra arguments, raw addresses and quality selection (switched on,
/// never off), colors (`--color` before `--no-color`), and the torrent
/// downloader, used exactly when `--use-torrent` is given.
pub proof fn lemma_command_line_options(c: ConfigView, a: Args)
    ensures
        a.instance matches Some(i) ==> with_args(c, a).instance == to_https_spec(i@) && !with_args(c, a).is_search_engine,
        a.instance is None ==> (a.search_engine matches Some(e) ==> with_args(c, a).instance == to_https_spec(e@)
            && with_args(c, a).is_search_engine),
        a.instance is None && a.search_engine is None ==> with_args(c, a).instance == c.instance
            && with_args(c, a).is_search_engine == c.is_search_engine,
        a.player matches Some(p) ==> with_args(c, a).player_client == p@,
        a.player is None ==> with_args(c, a).player_client == c.player_client,
        a.player_args matches Some(v) ==> with_args(c, a).player_args == c.player_args + strings_view(v@),
        a.player_args is None ==> with_args(c, a).player_args == c.player_args,
        with_args(c, a).use_raw_urls == (a.use_raw_urls || c.use_raw_urls),
        with_args(c, a).select_quality == (a.select_quality || c.select_quality),
        a.color ==> with_args(c, a).colors,
        !a.color && a.no_color ==> !with_args(c, a).colors,
        !a.color && !a.no_color ==> with_args(c, a).colors == c.colors,
        a.torrent_downloader matches Some(d) ==> (with_args(c, a).torrent matches Some((client, _, used)) && client
            == d@ && used == a.torrent),
        c.torrent is Some ==> (with_args(c, a).torrent matches Some((_, _, used)) && used == a.torrent),
        c.torrent is None && a.torrent_downloader is None ==> with_args(c, a).torrent is None,
        with_args(c, a).browser == c.browser,
        with_args(c, a).edit_mode == c.edit_mode,
        with_args(c, a).user_agent == c.user_agent,
        with_args(c, a).listed_instances == c.listed_instances,
        with_args(c, a).is_allowlist == c.is_allowlist,
        with_args(c, a).prefer_hls == c.prefer_hls,
        with_args(c, a).max_hist_lines == c.max_hist_lines,
{
}


/// The entries of a configuration file set what they name. In `general`:
/// `nsfw = "block"` blocks videos not safe for work, `"let"` lets them, and
/// `"tag"` or no entry tags them; `colors = "disable"` turns colors off, and
/// `"enable"` or no entry keeps them; `edit-mode = "vi"` gives vi keys, and
/// `"emacs"` or no entry emacs keys; `select-quality = true` asks for the
/// quality. In `instances`: `search-engine` wins over `main`, each made an
/// `https` address, and with neither the default search engine is used.
pub proof fn lemma_file_entries(b: Seq<char>, t: Seq<(String, TomlValue)>)
    ensures
        str_entry(section(t, "general"@), "nsfw"@) == Some("block"@) ==> file_view(b, t).nsfw == NsfwBehavior::Block,
        str_entry(section(t, "general"@), "nsfw"@) == Some("let"@) ==> file_view(b, t).nsfw == NsfwBehavior::Let,
        str_entry(section(t, "general"@), "nsfw"@) == Some("tag"@) ==> file_view(b, t).nsfw == NsfwBehavior::Tag,
        str_entry(section(t, "general"@), "nsfw"@) is None ==> file_view(b, t).nsfw == NsfwBehavior::Tag,
        str_entry(section(t, "general"@), "colors"@) == Some("disable"@) ==> !file_view(b, t).colors,
        str_entry(section(t, "general"@), "colors"@) == Some("enable"@) ==> file_view(b, t).colors,
        str_entry(section(t, "general"@), "colors"@) is None ==> file_view(b, t).colors,
        str_entry(section(t, "general"@), "edit-mode"@) == Some("vi"@) ==> file_view(b, t).edit_mode == EditMode::Vi,
        str_entry(section(t, "general"@), "edit-mode"@) == Some("emacs"@) ==> file_view(b, t).edit_mode
            == EditMode::Emacs,
        str_entry(section(t, "general"@), "edit-mode"@) is None ==> file_view(b, t).edit_mode == EditMode::Emacs,
        bool_entry(section(t, "general"@), "select-quality"@) == Some(true) ==> file_view(b, t).select_quality,
        bool_entry(section(t, "general"@), "select-quality"@) != Some(true) ==> !file_view(b, t).select_quality,
        lookup(section(t, "instances"@), "search-engine"@) matches Some(TomlValue::String(e)) ==> file_view(
            b,
            t,
        ).instance == to_https_spec(e@),
        lookup(section(t, "instances"@), "search-engine"@) is None ==> (lookup(section(t, "instances"@), "main"@) matches Some(
            TomlValue::String(m),
        ) ==> file_view(b, t).instance == to_https_spec(m@)),
        lookup(section(t, "instances"@), "search-engine"@) is None && lookup(section(t, "instances"@), "main"@) is None
            ==> file_view(b, t).instance == "https://sepiasearch.org"@,
{
    reveal_strlit("block");
    reveal_strlit("let");
    reveal_strlit("tag");
    reveal_strlit("disable");
    reveal_strlit("enable");
    reveal_strlit("vi");
    reveal_strlit("emacs");
    assert("let"@ != "block"@) by {
        assert("let"@.len() != "block"@.len());
    }
    assert("tag"@ != "block"@ && "tag"@ != "let"@) by {
        assert("tag"@.len() != "block"@.len());
        assert("tag"@[0] != "let"@[0]);
    }
    assert("enable"@ != "disable"@) by {
        assert("enable"@.len() != "disable"@.len());
    }
    assert("emacs"@ != "vi"@) by {
        assert("emacs"@.len() != "vi"@.len());
    }
}

} // verus!
