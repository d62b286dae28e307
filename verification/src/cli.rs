//! The decisions of the browsing loop: what an action does, how a video is played.
use vstd::prelude::*;
use crate::parser::{ParsedQuery, QueryView};
use crate::api::error::Error;
use crate::api::video::{
    Video, VideoView, FilesView, File, StreamingPlaylist, State, Resolution, ResolutionView, FileView,
    files_with, resolution_of, resolutions_view, watch_url_of, url_choice, string_result, PlaylistView,
};
use crate::text::{usize_to_string, decimal, str_eq};

verus! {

broadcast use vstd::string::group_string_axioms;

/// How many items a page holds.
pub const SEARCH_TOTAL: usize = 20;

/// The prompt of the line editor.
pub const PROMPT: &'static str = ">> ";

/// Asks for a first search.
pub const SEARCH_INFO: &'static str = "Search for videos (:h for help)";

/// Told when trending videos are asked of a search engine.
pub const TRENDING_UNAVAILABLE: &'static str = "Trending results are not available when using a search engine such as sepia.";

/// Told before asking whether to play a video from a blocked instance.
pub const BLOCKED_VIDEO: &'static str = "This video is from a blocked instance.";

/// Asks whether to play a video from a blocked instance.
pub const PLAY_ANYWAY: &'static str = "Play it anyway ? [y/N]: ";

/// Told when a video has no file but a stream.
pub const NO_RESOLUTION_HLS: &'static str = "No resolutions available\nVideo will be played with an HLS stream";

/// Told when no torrent can be had.
pub const NO_TORRENT: &'static str = "Unable to fetch torrent url\nThis video will be skipped";

/// Told when a video has neither file nor stream.
pub const NO_RESOLUTION: &'static str = "Unable to fetch resolutions\nAttempting to play with watch url";

/// Told when a stream was asked for and there is none.
pub const NO_STREAM: &'static str = "Unable to fetch streaming video url\nAttempting to play with watch url";

/// Told when a file was asked for and there is none.
pub const NO_RAW_URL: &'static str = "Unable to fetch raw video url\nAttempting to play with watch url";

/// What the browsing shows.
#[derive(Debug, Clone, Copy, PartialEq, Eq, Structural)]
pub enum ModeKind {
    Videos,
    Channels,
    Comments,
    /// Nothing yet.
    Temp,
}

/// What the loop does for an action.
#[derive(Debug, PartialEq, Eq)]
pub enum Step {
    /// Search videos.
    SearchVideos(String),
    /// End the browsing.
    Stop,
    /// Show the next page.
    NextPage,
    /// Show the previous page.
    PreviousPage,
    /// Browse the trending videos.
    Trending,
    /// Tell that trending videos are unavailable; ask for a search when nothing is shown.
    TrendingUnavailable { ask_first: bool },
    /// Show the help; ask for a search when nothing is shown.
    Help { ask_first: bool },
    /// Search channels.
    SearchChannels(String),
    /// Browse the videos of a channel, by its handle.
    ChannelVideos(String),
    /// Show more about the item.
    Info(usize),
    /// Open the item in the browser.
    Browser(usize),
    /// Browse the comments of the video.
    Comments(usize),
}

/// The value of a [`Step`].
pub enum StepView {
    SearchVideos(Seq<char>),
    Stop,
    NextPage,
    PreviousPage,
    Trending,
    TrendingUnavailable(bool),
    Help(bool),
    SearchChannels(Seq<char>),
    ChannelVideos(Seq<char>),
    Info(usize),
    Browser(usize),
    Comments(usize),
}

impl View for Step {
    type V = StepView;

    open spec fn view(&self) -> StepView {
        match self {
            Step::SearchVideos(s) => StepView::SearchVideos(s@),
            Step::Stop => StepView::Stop,
            Step::NextPage => StepView::NextPage,
            Step::PreviousPage => StepView::PreviousPage,
            Step::Trending => StepView::Trending,
            Step::TrendingUnavailable { ask_first } => StepView::TrendingUnavailable(*ask_first),
            Step::Help { ask_first } => StepView::Help(*ask_first),
            Step::SearchChannels(s) => StepView::SearchChannels(s@),
            Step::ChannelVideos(s) => StepView::ChannelVideos(s@),
            Step::Info(i) => StepView::Info(*i),
            Step::Browser(i) => StepView::Browser(*i),
            Step::Comments(i) => StepView::Comments(*i),
        }
    }
}

/// What the loop does for the action `a`, with `mode` shown, on an
/// instance that is a search engine or not.
pub open spec fn step_of(a: QueryView, mode: ModeKind, is_search_engine: bool) -> StepView {
    match a {
        QueryView::Query(s) => StepView::SearchVideos(s),
        QueryView::Quit => StepView::Stop,
        QueryView::Next => StepView::NextPage,
        QueryView::Previous => StepView::PreviousPage,
        QueryView::Trending => if is_search_engine {
            StepView::TrendingUnavailable(mode == ModeKind::Temp)
        } else {
            StepView::Trending
        },
        QueryView::Help => StepView::Help(mode == ModeKind::Temp),
        QueryView::Channels(q) => StepView::SearchChannels(q),
        QueryView::Chandle(h) => StepView::ChannelVideos(h),
        QueryView::Info(id) => StepView::Info(id),
        QueryView::Browser(id) => StepView::Browser(id),
        QueryView::Comments(id) => StepView::Comments(id),
        QueryView::Id(id) => StepView::Info(id),
    }
}

/// What the action `a` leaves in the history of the prompt, once done.
pub open spec fn history_entry_of(a: QueryView, is_search_engine: bool) -> Option<Seq<char>> {
    match a {
        QueryView::Query(s) => Some(s),
        QueryView::Trending => if is_search_engine {
            None
        } else {
            Some(":trending"@)
        },
        QueryView::Channels(q) => Some(":channels "@ + q),
        QueryView::Chandle(h) => Some(":chandle "@ + h),
        QueryView::Info(id) => Some(":info "@ + decimal(id as nat)),
        QueryView::Browser(id) => Some(":browser "@ + decimal(id as nat)),
        QueryView::Comments(id) => Some(":comments "@ + decimal(id as nat)),
        _ => None,
    }
}

/// What the loop does for the action `action`, with `mode` shown. A bare
/// number is no action; moving between pages needs something shown.
pub fn plan_action(action: &ParsedQuery, mode: ModeKind, is_search_engine: bool) -> (r: Step)
    requires
        !(action@ is Id),
        (action@ is Next || action@ is Previous) ==> mode != ModeKind::Temp,
    ensures
        r@ == step_of(action@, mode, is_search_engine),
{
    match action {
        ParsedQuery::Query(s) => Step::SearchVideos(s.clone()),
        ParsedQuery::Quit => Step::Stop,
        ParsedQuery::Next => Step::NextPage,
        ParsedQuery::Previous => Step::PreviousPage,
        ParsedQuery::Trending => if is_search_engine {
            Step::TrendingUnavailable { ask_first: mode == ModeKind::Temp }
        } else {
            Step::Trending
        },
        ParsedQuery::Help => Step::Help { ask_first: mode == ModeKind::Temp },
        ParsedQuery::Channels(q) => Step::SearchChannels(q.clone()),
        ParsedQuery::Chandle(h) => Step::ChannelVideos(h.clone()),
        ParsedQuery::Info(id) => Step::Info(*id),
        ParsedQuery::Browser(id) => Step::Browser(*id),
        ParsedQuery::Comments(id) => Step::Comments(*id),
        ParsedQuery::Id(id) => Step::Info(*id),
    }
}

/// `prefix` followed by the decimal writing of `n`.
fn with_number(prefix: &str, n: usize) -> (r: String)
    ensures
        r@ == prefix@ + decimal(n as nat),
{
    let mut s = String::from_str(prefix);
    let d = usize_to_string(n);
    s.append(d.as_str());
    s
}

/// What the action leaves in the history of the prompt, once done.
pub fn history_entry(action: &ParsedQuery, is_search_engine: bool) -> (r: Option<String>)
    ensures
        crate::error::opt_view(r) == history_entry_of(action@, is_search_engine),
{
    match action {
        ParsedQuery::Query(s) => Some(s.clone()),
        ParsedQuery::Trending => if is_search_engine {
            None
        } else {
            Some(String::from_str(":trending"))
        },
        ParsedQuery::Channels(q) => {
            let mut s = String::from_str(":channels ");
            s.append(q.as_str());
            Some(s)
        },
        ParsedQuery::Chandle(h) => {
            let mut s = String::from_str(":chandle ");
            s.append(h.as_str());
            Some(s)
        },
        ParsedQuery::Info(id) => Some(with_number(":info ", *id)),
        ParsedQuery::Browser(id) => Some(with_number(":browser ", *id)),
        ParsedQuery::Comments(id) => Some(with_number(":comments ", *id)),
        _ => None,
    }
}

/// Is the answer a yes (`y` or `Y`)?
pub fn confirms(answer: &str) -> (r: bool)
    ensures
        r == (answer@ == "y"@ || answer@ == "Y"@),
{
    str_eq(answer, "y") || str_eq(answer, "Y")
}

/// What is told of a video that cannot be played in its state; `None` when it can.
pub open spec fn state_warning_of(s: State) -> Option<Seq<char>> {
    match s {
        State::ToTranscode => Some("This video is not yet available"@),
        State::ToImport => Some("This video is not yet available"@),
        State::WaitingForLive => Some("This livestream has not started yet"@),
        State::LiveEnded => Some("This livestream is over"@),
        _ => None,
    }
}

/// What is told of a video that cannot be played in its state; `None` when it can.
pub fn state_warning(s: &State) -> (r: Option<&'static str>)
    ensures
        (match r {
            Some(w) => state_warning_of(*s) == Some(w@),
            None => state_warning_of(*s) is None,
        }),
{
    match s {
        State::ToTranscode | State::ToImport => Some("This video is not yet available"),
        State::WaitingForLive => Some("This livestream has not started yet"),
        State::LiveEnded => Some("This livestream is over"),
        _ => None,
    }
}

/// How videos are played: the options of the configuration that matter.
#[derive(Debug, Clone, Copy)]
pub struct PlayOptions {
    /// Ask for the resolution.
    pub select_quality: bool,
    /// Download the torrent of the video.
    pub use_torrent: bool,
    /// Give the player the address of a file or stream.
    pub use_raw_url: bool,
    /// Prefer a stream to a file.
    pub prefer_hls: bool,
}

/// Do the options need the files of the video?
pub open spec fn needs_files(o: PlayOptions) -> bool {
    o.select_quality || o.use_torrent || o.use_raw_url
}

/// What to do to play a video.
#[derive(Debug)]
pub enum PlayChoice {
    /// Play this address.
    Play(String),
    /// Tell the text, then play the address.
    PlayWarned(String, &'static str),
    /// Tell the text, and play nothing.
    Skip(&'static str),
    /// Ask which of these resolutions to play.
    AskResolution(Vec<Resolution>),
}

/// The value of a [`PlayChoice`].
pub enum PlayChoiceView {
    Play(Seq<char>),
    PlayWarned(Seq<char>, Seq<char>),
    Skip(Seq<char>),
    AskResolution(Seq<ResolutionView>),
}

impl View for PlayChoice {
    type V = PlayChoiceView;

    open spec fn view(&self) -> PlayChoiceView {
        match self {
            PlayChoice::Play(u) => PlayChoiceView::Play(u@),
            PlayChoice::PlayWarned(u, w) => PlayChoiceView::PlayWarned(u@, w@),
            PlayChoice::Skip(w) => PlayChoiceView::Skip(w@),
            PlayChoice::AskResolution(v) => PlayChoiceView::AskResolution(resolutions_view(v@)),
        }
    }
}

/// The value of the outcome of a choice.
pub open spec fn choice_result(r: Result<PlayChoice, Error>) -> Result<PlayChoiceView, Error> {
    match r {
        Ok(c) => Ok(c@),
        Err(e) => Err(e),
    }
}

/// How the video `v` is played with the options `o`, once its files are `files`.
/// A torrent play without quality selection skips the video with the
/// no-torrent notice when an earlier fetch of its files had already ended out
/// of bounds; a failure of the fetch made for this play is returned as it is.
pub open spec fn play_choice(o: PlayOptions, v: VideoView, files: FilesView) -> Result<PlayChoiceView, Error> {
    if !needs_files(o) {
        Ok(PlayChoiceView::Play(watch_url_of(v)))
    } else {
        match files {
            FilesView::FetchedError(e) => if !o.select_quality && o.use_torrent && e is OutOfBound && !(v.files is NotFetched) {
                Ok(PlayChoiceView::Skip(NO_TORRENT@))
            } else {
                Err(e)
            },
            FilesView::NotFetched => Err(Error::NoContent),
            FilesView::Fetched(fs, ss) => if o.select_quality {
                if fs.len() == 0 {
                    if ss.len() > 0 {
                        Ok(PlayChoiceView::PlayWarned(ss[0].playlist_url, NO_RESOLUTION_HLS@))
                    } else if o.use_torrent {
                        Ok(PlayChoiceView::Skip(NO_TORRENT@))
                    } else {
                        Ok(PlayChoiceView::PlayWarned(watch_url_of(v), NO_RESOLUTION@))
                    }
                } else {
                    Ok(PlayChoiceView::AskResolution(fs.map_values(|f: FileView| resolution_of(f))))
                }
            } else if o.use_torrent {
                if fs.len() > 0 {
                    Ok(PlayChoiceView::Play(fs[0].torrent_download_url))
                } else {
                    Ok(PlayChoiceView::Skip(NO_TORRENT@))
                }
            } else if (o.prefer_hls && ss.len() > 0) || fs.len() == 0 {
                if ss.len() > 0 {
                    Ok(PlayChoiceView::Play(ss[0].playlist_url))
                } else {
                    Ok(PlayChoiceView::PlayWarned(watch_url_of(v), NO_STREAM@))
                }
            } else {
                Ok(PlayChoiceView::Play(fs[0].download_url))
            },
        }
    }
}

/// Chooses how to play `video` with the options `o`: the files are fetched
/// once when the options need them; `fetched` is what fetching them gave,
/// needed when they have not been fetched yet.
pub fn choose_play(
    video: &mut Video,
    o: PlayOptions,
    fetched: Option<Result<(Vec<File>, Vec<StreamingPlaylist>), Error>>,
) -> (r: Result<PlayChoice, Error>)
    requires
        needs_files(o) && old(video)@.files is NotFetched ==> fetched is Some,
    ensures
        final(video)@ == (VideoView {
            files: if needs_files(o) {
                files_with(old(video)@.files, fetched)
            } else {
                old(video)@.files
            },
            ..old(video)@
        }),
        choice_result(r) == play_choice(o, old(video)@, final(video)@.files),
{
    if o.select_quality {
        let resolutions = video.resolutions(fetched)?;
        assert(resolutions_view(resolutions@).len() == resolutions@.len());
        if resolutions.len() == 0 {
            if video.has_streams()? {
                let u = video.stream_url(0)?;
                Ok(PlayChoice::PlayWarned(u, NO_RESOLUTION_HLS))
            } else if o.use_torrent {
                Ok(PlayChoice::Skip(NO_TORRENT))
            } else {
                Ok(PlayChoice::PlayWarned(video.watch_url(), NO_RESOLUTION))
            }
        } else {
            Ok(PlayChoice::AskResolution(resolutions))
        }
    } else if o.use_torrent {
        video.load_resolutions(fetched)?;
        match video.torrent_url(0) {
            Ok(url) => Ok(PlayChoice::Play(url)),
            Err(Error::OutOfBound(_)) => Ok(PlayChoice::Skip(NO_TORRENT)),
            Err(err) => Err(err),
        }
    } else if o.use_raw_url {
        video.load_resolutions(fetched)?;
        let stream_first = if o.prefer_hls && video.has_streams()? {
            true
        } else {
            !video.has_files()?
        };
        if stream_first {
            match video.stream_url(0) {
                Ok(url) => Ok(PlayChoice::Play(url)),
                Err(Error::OutOfBound(_)) => Ok(PlayChoice::PlayWarned(video.watch_url(), NO_STREAM)),
                Err(err) => Err(err),
            }
        } else {
            match video.resolution_url(0) {
                Ok(url) => Ok(PlayChoice::Play(url)),
                Err(Error::OutOfBound(_)) => Ok(PlayChoice::PlayWarned(video.watch_url(), NO_RAW_URL)),
                Err(err) => Err(err),
            }
        }
    } else {
        Ok(PlayChoice::Play(video.watch_url()))
    }
}

/// The address to play once the resolution `choice` (counted from 1) was
/// chosen: its torrent when torrents are used.
pub fn chosen_url(video: &Video, use_torrent: bool, choice: usize) -> (r: Result<String, Error>)
    requires
        choice >= 1,
        !(video@.files is NotFetched),
    ensures
        use_torrent ==> string_result(r) == url_choice(video@.files, choice - 1, |f: FileView| f.torrent_download_url, false),
        !use_torrent ==> string_result(r) == url_choice(video@.files, choice - 1, |f: FileView| f.download_url, false),
{
    if use_torrent {
        video.torrent_url(choice - 1)
    } else {
        video.resolution_url(choice - 1)
    }
}


/// Each command typed at the prompt is done as the step it names, whatever is
/// shown: a search of videos, channels or a channel's videos for its text,
/// and the information, the browser page or the comments of the item it
/// numbers; a bare number shows the item's information. The trending videos
/// are only for an instance that is no search engine.
pub proof fn lemma_steps_follow_commands(mode: ModeKind, se: bool, n: usize, t: Seq<char>)
    ensures
        step_of(QueryView::Info(n), mode, se) == StepView::Info(n),
        step_of(QueryView::Comments(n), mode, se) == StepView::Comments(n),
        step_of(QueryView::Browser(n), mode, se) == StepView::Browser(n),
        step_of(QueryView::Id(n), mode, se) == StepView::Info(n),
        step_of(QueryView::Query(t), mode, se) == StepView::SearchVideos(t),
        step_of(QueryView::Channels(t), mode, se) == StepView::SearchChannels(t),
        step_of(QueryView::Chandle(t), mode, se) == StepView::ChannelVideos(t),
        step_of(QueryView::Quit, mode, se) == StepView::Stop,
        step_of(QueryView::Next, mode, se) == StepView::NextPage,
        step_of(QueryView::Previous, mode, se) == StepView::PreviousPage,
        step_of(QueryView::Trending, mode, false) == StepView::Trending,
        step_of(QueryView::Trending, mode, true) is TrendingUnavailable,
        step_of(QueryView::Help, mode, se) is Help,
{
}

/// What an action about an item leaves in the history of the prompt is a
/// line that, typed again, is the same action; so is the line left by a
/// search of channels or of a channel's videos, for a text without spaces at
/// its ends.
pub proof fn lemma_history_entry_reparses(n: usize, t: Seq<char>, se: bool)
    ensures
        history_entry_of(QueryView::Info(n), se) matches Some(e) && crate::parser::parse_spec(e) == Ok::<
            QueryView,
            crate::parser::ParseErrorView,
        >(QueryView::Info(n)),
        history_entry_of(QueryView::Comments(n), se) matches Some(e) && crate::parser::parse_spec(e) == Ok::<
            QueryView,
            crate::parser::ParseErrorView,
        >(QueryView::Comments(n)),
        history_entry_of(QueryView::Browser(n), se) matches Some(e) && crate::parser::parse_spec(e) == Ok::<
            QueryView,
            crate::parser::ParseErrorView,
        >(QueryView::Browser(n)),
        crate::parser::clean_spaces_spec(t) == Some(t) ==> (history_entry_of(QueryView::Channels(t), se) matches Some(
            e,
        ) && crate::parser::parse_spec(e) == Ok::<QueryView, crate::parser::ParseErrorView>(QueryView::Channels(t))),
        crate::parser::clean_spaces_spec(t) == Some(t) ==> (history_entry_of(QueryView::Chandle(t), se) matches Some(
            e,
        ) && crate::parser::parse_spec(e) == Ok::<QueryView, crate::parser::ParseErrorView>(QueryView::Chandle(t))),
{
    let d = decimal(n as nat);
    crate::text::lemma_decimal_reads_back(n as nat);
    assert(d[0] != ' ') by {
        assert(crate::text::is_digit(d[0]));
    }
    assert(d.last() != ' ') by {
        assert(crate::text::is_digit(d[d.len() - 1]));
    }
    assert(crate::parser::trim_start_spaces(d) == d);
    assert(crate::parser::trim_end_spaces(d) == d);
    assert(crate::parser::clean_spaces_spec(d) == Some(d));
    crate::parser::lemma_id_commands(d);
    crate::parser::lemma_channel_commands(t);
}

/// With raw addresses (no torrent, no choice of quality), a video is played
/// from its first stream when streams are preferred and it has one, or when
/// it has no file; else from its first file; with neither, from its watch
/// page with a warning. A stream is chosen only when there is one, and a
/// file only when there is one.
pub proof fn lemma_raw_addresses(o: PlayOptions, v: VideoView, fs: Seq<FileView>, ss: Seq<PlaylistView>)
    requires
        o.use_raw_url,
        !o.use_torrent,
        !o.select_quality,
    ensures
        fs.len() > 0 && ss.len() == 0 ==> play_choice(o, v, FilesView::Fetched(fs, ss)) == Ok::<
            PlayChoiceView,
            Error,
        >(PlayChoiceView::Play(fs[0].download_url)),
        fs.len() > 0 && !o.prefer_hls ==> play_choice(o, v, FilesView::Fetched(fs, ss)) == Ok::<PlayChoiceView, Error>(
            PlayChoiceView::Play(fs[0].download_url),
        ),
        ss.len() > 0 && (o.prefer_hls || fs.len() == 0) ==> play_choice(o, v, FilesView::Fetched(fs, ss)) == Ok::<
            PlayChoiceView,
            Error,
        >(PlayChoiceView::Play(ss[0].playlist_url)),
        fs.len() == 0 && ss.len() == 0 ==> play_choice(o, v, FilesView::Fetched(fs, ss)) == Ok::<
            PlayChoiceView,
            Error,
        >(PlayChoiceView::PlayWarned(watch_url_of(v), NO_STREAM@)),
{
}

/// With torrents and no choice of quality, a video is played from the
/// torrent of its first file, and skipped when it has no file.
pub proof fn lemma_torrent_play(o: PlayOptions, v: VideoView, fs: Seq<FileView>, ss: Seq<PlaylistView>)
    requires
        o.use_torrent,
        !o.select_quality,
    ensures
        fs.len() > 0 ==> play_choice(o, v, FilesView::Fetched(fs, ss)) == Ok::<PlayChoiceView, Error>(
            PlayChoiceView::Play(fs[0].torrent_download_url),
        ),
        fs.len() == 0 ==> play_choice(o, v, FilesView::Fetched(fs, ss)) == Ok::<PlayChoiceView, Error>(
            PlayChoiceView::Skip(NO_TORRENT@),
        ),
{
}

/// Choosing the quality asks among the resolutions of the files, in order;
/// without files, a stream is played with a warning, a torrent is skipped,
/// else the watch page is played with a warning. Without raw addresses,
/// torrents or quality choice, the watch page is played, with nothing fetched.
pub proof fn lemma_quality_choice(o: PlayOptions, v: VideoView, fs: Seq<FileView>, ss: Seq<PlaylistView>, f: FilesView)
    ensures
        o.select_quality && fs.len() > 0 ==> play_choice(o, v, FilesView::Fetched(fs, ss)) == Ok::<
            PlayChoiceView,
            Error,
        >(PlayChoiceView::AskResolution(fs.map_values(|x: FileView| resolution_of(x)))),
        o.select_quality && fs.len() == 0 && ss.len() > 0 ==> play_choice(o, v, FilesView::Fetched(fs, ss)) == Ok::<
            PlayChoiceView,
            Error,
        >(PlayChoiceView::PlayWarned(ss[0].playlist_url, NO_RESOLUTION_HLS@)),
        o.select_quality && fs.len() == 0 && ss.len() == 0 && o.use_torrent ==> play_choice(
            o,
            v,
            FilesView::Fetched(fs, ss),
        ) == Ok::<PlayChoiceView, Error>(PlayChoiceView::Skip(NO_TORRENT@)),
        o.select_quality && fs.len() == 0 && ss.len() == 0 && !o.use_torrent ==> play_choice(
            o,
            v,
            FilesView::Fetched(fs, ss),
        ) == Ok::<PlayChoiceView, Error>(PlayChoiceView::PlayWarned(watch_url_of(v), NO_RESOLUTION@)),
        !o.select_quality && !o.use_torrent && !o.use_raw_url ==> play_choice(o, v, f) == Ok::<PlayChoiceView, Error>(
            PlayChoiceView::Play(watch_url_of(v)),
        ),
{
}


/// A failed fetch of the files stops the play with its error, except that a
/// torrent played without choice of quality is skipped when an earlier fetch
/// found the index out of bounds.
pub proof fn lemma_fetch_error_stops(o: PlayOptions, v: VideoView, e: Error)
    requires
        needs_files(o),
    ensures
        !(!o.select_quality && o.use_torrent && e is OutOfBound && !(v.files is NotFetched)) ==> play_choice(
            o,
            v,
            FilesView::FetchedError(e),
        ) == Err::<PlayChoiceView, Error>(e),
        !o.select_quality && o.use_torrent && e is OutOfBound && !(v.files is NotFetched) ==> play_choice(
            o,
            v,
            FilesView::FetchedError(e),
        ) == Ok::<PlayChoiceView, Error>(PlayChoiceView::Skip(NO_TORRENT@)),
{
}

/// The resolution chosen by its number `k` (from 1) is the file `k - 1`: its
/// address, or its torrent when torrents are used; a number past the files is
/// out of bounds, and a failed fetch gives its error.
pub proof fn lemma_chosen_resolution(fs: Seq<FileView>, ss: Seq<PlaylistView>, k: int, e: Error)
    requires
        k >= 1,
    ensures
        k <= fs.len() ==> url_choice(FilesView::Fetched(fs, ss), k - 1, |f: FileView| f.download_url, false) == Ok::<
            Seq<char>,
            Error,
        >(fs[k - 1].download_url),
        k <= fs.len() ==> url_choice(FilesView::Fetched(fs, ss), k - 1, |f: FileView| f.torrent_download_url, false)
            == Ok::<Seq<char>, Error>(fs[k - 1].torrent_download_url),
        k > fs.len() ==> url_choice(FilesView::Fetched(fs, ss), k - 1, |f: FileView| f.download_url, false) == Err::<
            Seq<char>,
            Error,
        >(Error::OutOfBound(fs.len() as usize)),
        url_choice(FilesView::FetchedError(e), k - 1, |f: FileView| f.download_url, false) == Err::<Seq<char>, Error>(e),
{
}

} // verus!
