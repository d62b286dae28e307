//! A video: what the API says of it, and what is fetched of it later.
use vstd::prelude::*;
use vstd::std_specs::convert::FromSpecImpl;
use std::sync::Arc;
use crate::ser;
use crate::dates::Timestamp;
use crate::api::common::Channel;
use crate::api::error::Error;
use crate::api::instance::{Instance, InstanceView};
use crate::config::opt_str;

verus! {

broadcast use vstd::string::group_string_axioms;

/// A file of a video, in one resolution.
#[derive(Debug)]
pub struct File {
    magnet_uri: String,
    resoltion_id: u64,
    resolution: String,
    size: u64,
    torrent_url: String,
    torrent_download_url: String,
    webseed_url: String,
    download_url: String,
}

/// The value of a [`File`].
pub struct FileView {
    pub magnet_uri: Seq<char>,
    pub resolution_id: u64,
    pub resolution: Seq<char>,
    pub size: u64,
    pub torrent_url: Seq<char>,
    pub torrent_download_url: Seq<char>,
    pub webseed_url: Seq<char>,
    pub download_url: Seq<char>,
}

impl View for File {
    type V = FileView;

    closed spec fn view(&self) -> FileView {
        FileView {
            magnet_uri: self.magnet_uri@,
            resolution_id: self.resoltion_id,
            resolution: self.resolution@,
            size: self.size,
            torrent_url: self.torrent_url@,
            torrent_download_url: self.torrent_download_url@,
            webseed_url: self.webseed_url@,
            download_url: self.download_url@,
        }
    }
}

/// What a file of the answer becomes.
pub open spec fn file_of(v: ser::video::File) -> FileView {
    FileView {
        magnet_uri: v.magnet_uri@,
        resolution_id: v.resolution.id,
        resolution: v.resolution.label@,
        size: v.size,
        torrent_url: v.torrent_url@,
        torrent_download_url: v.torrent_download_url@,
        webseed_url: v.file_url@,
        download_url: v.file_download_url@,
    }
}

impl File {
    /// The file that the answer describes.
    pub fn from_answer(v: ser::video::File) -> (r: File)
        ensures
            r@ == file_of(v),
    {
        File {
            magnet_uri: v.magnet_uri,
            resoltion_id: v.resolution.id,
            resolution: v.resolution.label,
            size: v.size,
            torrent_url: v.torrent_url,
            torrent_download_url: v.torrent_download_url,
            webseed_url: v.file_url,
            download_url: v.file_download_url,
        }
    }
}

/// A stream of a video.
#[derive(Debug)]
pub struct StreamingPlaylist {
    id: u64,
    playlist_url: String,
}

/// The value of a [`StreamingPlaylist`].
pub struct PlaylistView {
    pub id: u64,
    pub playlist_url: Seq<char>,
}

impl View for StreamingPlaylist {
    type V = PlaylistView;

    closed spec fn view(&self) -> PlaylistView {
        PlaylistView { id: self.id, playlist_url: self.playlist_url@ }
    }
}

impl Clone for StreamingPlaylist {
    fn clone(&self) -> (r: Self)
        ensures
            r@ == self@,
    {
        StreamingPlaylist { id: self.id, playlist_url: self.playlist_url.clone() }
    }
}

impl StreamingPlaylist {
    /// The stream that the answer describes.
    pub fn from_answer(v: ser::video::StreamingPlaylist) -> (r: StreamingPlaylist)
        ensures
            r@ == (PlaylistView { id: v.id, playlist_url: v.playlist_url@ }),
    {
        StreamingPlaylist { id: v.id, playlist_url: v.playlist_url }
    }

    /// The address of the stream.
    pub fn playlist_url(&self) -> (r: &str)
        ensures
            r@ == self@.playlist_url,
    {
        self.playlist_url.as_str()
    }

    /// The number of the stream.
    pub fn id(&self) -> (r: u64)
        ensures
            r == self@.id,
    {
        self.id
    }
}

/// A resolution in which a video can be had.
#[derive(Debug)]
pub struct Resolution {
    id: u64,
    label: String,
    size: u64,
}

/// The value of a [`Resolution`].
pub struct ResolutionView {
    pub id: u64,
    pub label: Seq<char>,
    pub size: u64,
}

impl View for Resolution {
    type V = ResolutionView;

    closed spec fn view(&self) -> ResolutionView {
        ResolutionView { id: self.id, label: self.label@, size: self.size }
    }
}

/// The resolution of a file.
pub open spec fn resolution_of(f: FileView) -> ResolutionView {
    ResolutionView { id: f.resolution_id, label: f.resolution, size: f.size }
}

impl Resolution {
    /// The resolution of the file `f`.
    pub fn from_file(f: &File) -> (r: Resolution)
        ensures
            r@ == resolution_of(f@),
    {
        Resolution { id: f.resoltion_id, label: f.resolution.clone(), size: f.size }
    }

    /// The number of the resolution.
    pub fn id(&self) -> (r: &u64)
        ensures
            *r == self@.id,
    {
        &self.id
    }

    /// The label of the resolution.
    pub fn label(&self) -> (r: &str)
        ensures
            r@ == self@.label,
    {
        self.label.as_str()
    }

    /// The size of the file, in bytes.
    pub fn size(&self) -> (r: &u64)
        ensures
            *r == self@.size,
    {
        &self.size
    }
}

/// The state of a video.
#[derive(Debug, Clone)]
pub enum State {
    Published,
    ToTranscode,
    ToImport,
    WaitingForLive,
    LiveEnded,
    Unknown(u16, String),
}

impl From<ser::common::VideoState> for State {
    fn from(i: ser::common::VideoState) -> (r: State) {
        if i.id == 1 {
            State::Published
        } else if i.id == 2 {
            State::ToTranscode
        } else if i.id == 3 {
            State::ToImport
        } else if i.id == 4 {
            State::WaitingForLive
        } else if i.id == 5 {
            State::LiveEnded
        } else {
            State::Unknown(i.id, i.label)
        }
    }
}

impl FromSpecImpl<ser::common::VideoState> for State {
    open spec fn obeys_from_spec() -> bool {
        true
    }

    open spec fn from_spec(i: ser::common::VideoState) -> State {
        if i.id == 1 {
            State::Published
        } else if i.id == 2 {
            State::ToTranscode
        } else if i.id == 3 {
            State::ToImport
        } else if i.id == 4 {
            State::WaitingForLive
        } else if i.id == 5 {
            State::LiveEnded
        } else {
            State::Unknown(i.id, i.label)
        }
    }
}

/// The full description of a video, fetched once.
#[derive(Debug, Clone)]
pub enum Description {
    NotFetched,
    FetchedNone,
    FetchedError(Error),
    Fetched(String),
}

/// The value of a [`Description`].
pub enum DescriptionView {
    NotFetched,
    FetchedNone,
    FetchedError(Error),
    Fetched(Seq<char>),
}

impl View for Description {
    type V = DescriptionView;

    open spec fn view(&self) -> DescriptionView {
        match self {
            Description::NotFetched => DescriptionView::NotFetched,
            Description::FetchedNone => DescriptionView::FetchedNone,
            Description::FetchedError(e) => DescriptionView::FetchedError(*e),
            Description::Fetched(s) => DescriptionView::Fetched(s@),
        }
    }
}

impl Description {
    /// Whether the description is still to be fetched.
    pub fn is_none(&self) -> (r: bool)
        ensures
            r == (self@ is NotFetched),
    {
        matches!(self, Description::NotFetched)
    }

    /// The text of the description, when it was fetched and there is one.
    pub fn to_option(&self) -> (r: Option<String>)
        ensures
            opt_str(r) == description_text(self@),
    {
        if let Description::Fetched(s) = self {
            Some(s.clone())
        } else {
            None
        }
    }
}

/// The files and streams of a video, fetched once.
#[derive(Debug)]
pub enum Files {
    NotFetched,
    FetchedError(Error),
    Fetched(Vec<File>, Vec<StreamingPlaylist>),
}

/// The value of [`Files`].
pub enum FilesView {
    NotFetched,
    FetchedError(Error),
    Fetched(Seq<FileView>, Seq<PlaylistView>),
}

/// The values of files.
pub open spec fn files_view(v: Seq<File>) -> Seq<FileView> {
    v.map_values(|f: File| f@)
}

/// The values of streams.
pub open spec fn playlists_view(v: Seq<StreamingPlaylist>) -> Seq<PlaylistView> {
    v.map_values(|p: StreamingPlaylist| p@)
}

/// The values of resolutions.
pub open spec fn resolutions_view(v: Seq<Resolution>) -> Seq<ResolutionView> {
    v.map_values(|r: Resolution| r@)
}

impl View for Files {
    type V = FilesView;

    open spec fn view(&self) -> FilesView {
        match self {
            Files::NotFetched => FilesView::NotFetched,
            Files::FetchedError(e) => FilesView::FetchedError(*e),
            Files::Fetched(f, s) => FilesView::Fetched(files_view(f@), playlists_view(s@)),
        }
    }
}

/// A video, with what has been fetched of it.
#[derive(Debug)]
pub struct Video {
    instance: Arc<Instance>,
    name: String,
    uuid: String,
    duration: u64,
    views: u64,
    likes: u64,
    nsfw: bool,
    is_live: bool,
    dislikes: u64,
    published: Option<Timestamp>,
    short_desc: Option<String>,
    description: Description,
    files: Files,
    channel: Channel,
    account: Channel,
    state: State,
}

/// The value of a [`Video`].
pub struct VideoView {
    pub instance: InstanceView,
    pub name: Seq<char>,
    pub uuid: Seq<char>,
    pub duration: u64,
    pub views: u64,
    pub likes: u64,
    pub nsfw: bool,
    pub is_live: bool,
    pub dislikes: u64,
    pub published: Option<Timestamp>,
    pub short_desc: Option<Seq<char>>,
    pub description: DescriptionView,
    pub files: FilesView,
    pub channel: Channel,
    pub account: Channel,
    pub state: State,
}

impl View for Video {
    type V = VideoView;

    closed spec fn view(&self) -> VideoView {
        VideoView {
            instance: (*self.instance)@,
            name: self.name@,
            uuid: self.uuid@,
            duration: self.duration,
            views: self.views,
            likes: self.likes,
            nsfw: self.nsfw,
            is_live: self.is_live,
            dislikes: self.dislikes,
            published: self.published,
            short_desc: opt_str(self.short_desc),
            description: self.description@,
            files: self.files@,
            channel: self.channel,
            account: self.account,
            state: self.state,
        }
    }
}

/// The owner of a video that an answer describes.
pub open spec fn channel_of(c: ser::common::Channel) -> Channel {
    Channel { id: c.id, name: c.name, display_name: c.display_name, url: c.url, host: c.host }
}

/// The state that an answer describes.
pub open spec fn state_of(i: ser::common::VideoState) -> State {
    if i.id == 1 {
        State::Published
    } else if i.id == 2 {
        State::ToTranscode
    } else if i.id == 3 {
        State::ToImport
    } else if i.id == 4 {
        State::WaitingForLive
    } else if i.id == 5 {
        State::LiveEnded
    } else {
        State::Unknown(i.id, i.label)
    }
}

/// The video that a search found, tied to the instance `i`: nothing of it fetched yet.
pub open spec fn search_video_view(i: InstanceView, v: ser::search::Video) -> VideoView {
    VideoView {
        instance: i,
        name: v.name@,
        uuid: v.uuid@,
        duration: v.duration,
        views: v.views,
        likes: v.likes,
        nsfw: v.nsfw,
        is_live: v.is_live,
        dislikes: v.dislikes,
        published: Some(v.published_at),
        short_desc: opt_str(v.description),
        description: DescriptionView::NotFetched,
        files: FilesView::NotFetched,
        channel: channel_of(v.channel),
        account: channel_of(v.account),
        state: state_of(v.state),
    }
}

/// The video that a full answer describes, tied to the instance `i`: its
/// files and streams are known.
pub open spec fn full_video_view(i: InstanceView, v: ser::video::Video) -> VideoView {
    VideoView {
        instance: i,
        name: v.name@,
        uuid: v.uuid@,
        duration: v.duration,
        views: v.views,
        likes: v.likes,
        nsfw: v.nsfw,
        is_live: v.is_live,
        dislikes: v.dislikes,
        published: Some(v.published_at),
        short_desc: opt_str(v.description),
        description: DescriptionView::NotFetched,
        files: FilesView::Fetched(
            v.files@.map_values(|f: ser::video::File| file_of(f)),
            v.streaming_playlists@.map_values(
                |p: ser::video::StreamingPlaylist| PlaylistView { id: p.id, playlist_url: p.playlist_url@ },
            ),
        ),
        channel: channel_of(v.channel),
        account: channel_of(v.account),
        state: state_of(v.state),
    }
}

/// The files of an answer, in order.
pub fn files_from(files: Vec<ser::video::File>) -> (r: Vec<File>)
    ensures
        files_view(r@) == files@.map_values(|f: ser::video::File| file_of(f)),
{
    let mut files = files;
    let ghost all = files@;
    let mut out: Vec<File> = Vec::new();
    let mut rest: Vec<ser::video::File> = Vec::new();
    // Take the files out back to front, then turn them in order.
    while files.len() > 0
        invariant
            rest@.len() + files@.len() == all.len(),
            files@ == all.take(files@.len() as int),
            forall|k: int| 0 <= k < rest@.len() ==> rest@[k] == all[all.len() - 1 - k],
        decreases files@.len(),
    {
        let f = files.pop().unwrap();
        rest.push(f);
    }
    while rest.len() > 0
        invariant
            rest@.len() + out@.len() == all.len(),
            forall|k: int| 0 <= k < rest@.len() ==> rest@[k] == all[all.len() - 1 - k],
            files_view(out@) == all.take(out@.len() as int).map_values(|f: ser::video::File| file_of(f)),
        decreases rest@.len(),
    {
        let ghost k = out@.len() as int;
        assert(rest@[rest@.len() - 1] == all[k]);
        let f = rest.pop().unwrap();
        let c = File::from_answer(f);
        let ghost before = files_view(out@);
        out.push(c);
        assert(files_view(out@) =~= before.push(file_of(all[k])));
        assert(all.take(k + 1) =~= all.take(k).push(all[k]));
        assert(files_view(out@) =~= all.take(out@.len() as int).map_values(|f: ser::video::File| file_of(f)));
    }
    assert(all.take(all.len() as int) =~= all);
    out
}

/// The streams of an answer, in order.
pub fn playlists_from(streams: Vec<ser::video::StreamingPlaylist>) -> (r: Vec<StreamingPlaylist>)
    ensures
        playlists_view(r@) == streams@.map_values(
            |p: ser::video::StreamingPlaylist| PlaylistView { id: p.id, playlist_url: p.playlist_url@ },
        ),
{
    let mut streams = streams;
    let ghost all = streams@;
    let mut out: Vec<StreamingPlaylist> = Vec::new();
    let mut rest: Vec<ser::video::StreamingPlaylist> = Vec::new();
    while streams.len() > 0
        invariant
            rest@.len() + streams@.len() == all.len(),
            streams@ == all.take(streams@.len() as int),
            forall|k: int| 0 <= k < rest@.len() ==> rest@[k] == all[all.len() - 1 - k],
        decreases streams@.len(),
    {
        let p = streams.pop().unwrap();
        rest.push(p);
    }
    while rest.len() > 0
        invariant
            rest@.len() + out@.len() == all.len(),
            forall|k: int| 0 <= k < rest@.len() ==> rest@[k] == all[all.len() - 1 - k],
            playlists_view(out@) == all.take(out@.len() as int).map_values(
                |p: ser::video::StreamingPlaylist| PlaylistView { id: p.id, playlist_url: p.playlist_url@ },
            ),
        decreases rest@.len(),
    {
        let ghost k = out@.len() as int;
        assert(rest@[rest@.len() - 1] == all[k]);
        let p = rest.pop().unwrap();
        let c = StreamingPlaylist::from_answer(p);
        let ghost before = playlists_view(out@);
        out.push(c);
        assert(playlists_view(out@) =~= before.push(PlaylistView { id: all[k].id, playlist_url: all[k].playlist_url@ }));
        assert(all.take(k + 1) =~= all.take(k).push(all[k]));
        assert(playlists_view(out@) =~= all.take(out@.len() as int).map_values(
            |p: ser::video::StreamingPlaylist| PlaylistView { id: p.id, playlist_url: p.playlist_url@ },
        ));
    }
    assert(all.take(all.len() as int) =~= all);
    out
}

impl Video {
    /// The video that a search found, tied to the instance `i`.
    pub fn from_search(i: &Arc<Instance>, v: ser::search::Video) -> (r: Video)
        ensures
            r@ == search_video_view((**i)@, v),
    {
        Video {
            instance: i.clone(),
            name: v.name,
            uuid: v.uuid,
            duration: v.duration,
            likes: v.likes,
            dislikes: v.dislikes,
            views: v.views,
            nsfw: v.nsfw,
            is_live: v.is_live,
            published: Some(v.published_at),
            short_desc: v.description,
            description: Description::NotFetched,
            files: Files::NotFetched,
            channel: Channel::from(v.channel),
            account: Channel::from(v.account),
            state: State::from(v.state),
        }
    }

    /// The video that a full answer describes, tied to the instance `i`.
    pub fn from_full(i: &Arc<Instance>, v: ser::video::Video) -> (r: Video)
        ensures
            r@ == full_video_view((**i)@, v),
    {
        let files = files_from(v.files);
        let streams = playlists_from(v.streaming_playlists);
        Video {
            instance: i.clone(),
            name: v.name,
            uuid: v.uuid,
            duration: v.duration,
            likes: v.likes,
            dislikes: v.dislikes,
            views: v.views,
            nsfw: v.nsfw,
            is_live: v.is_live,
            published: Some(v.published_at),
            short_desc: v.description,
            description: Description::NotFetched,
            files: Files::Fetched(files, streams),
            channel: Channel::from(v.channel),
            account: Channel::from(v.account),
            state: State::from(v.state),
        }
    }
}

/// The description once `fetched`, what fetching it gave, is recorded:
/// only a description not fetched yet takes it.
pub open spec fn description_after(d: DescriptionView, fetched: Result<Option<String>, Error>) -> DescriptionView {
    match d {
        DescriptionView::NotFetched => match fetched {
            Ok(Some(s)) => DescriptionView::Fetched(s@),
            Ok(None) => DescriptionView::FetchedNone,
            Err(e) => DescriptionView::FetchedError(e),
        },
        _ => d,
    }
}

/// The text of a fetched description.
pub open spec fn description_text(d: DescriptionView) -> Option<Seq<char>> {
    match d {
        DescriptionView::Fetched(s) => Some(s),
        _ => None,
    }
}

/// The files once `fetched`, what fetching them gave, is recorded: only
/// files not fetched yet take it.
pub open spec fn files_after(f: FilesView, fetched: Result<(Vec<File>, Vec<StreamingPlaylist>), Error>) -> FilesView {
    match f {
        FilesView::NotFetched => match fetched {
            Ok((a, b)) => FilesView::Fetched(files_view(a@), playlists_view(b@)),
            Err(e) => FilesView::FetchedError(e),
        },
        _ => f,
    }
}

/// The state once what may have been fetched is recorded.
pub open spec fn files_with(f: FilesView, fetched: Option<Result<(Vec<File>, Vec<StreamingPlaylist>), Error>>) -> FilesView {
    match fetched {
        Some(r) => files_after(f, r),
        None => f,
    }
}

/// The description once what may have been fetched is recorded.
pub open spec fn description_with(d: DescriptionView, fetched: Option<Result<Option<String>, Error>>) -> DescriptionView {
    match fetched {
        Some(r) => description_after(d, r),
        None => d,
    }
}

/// The addresses that the files or streams give for the entry `id`: the
/// address of the entry, an error when there is no such entry, or the error
/// that fetching them gave.
pub open spec fn url_choice(f: FilesView, id: int, which: spec_fn(FileView) -> Seq<char>, of_streams: bool) -> Result<Seq<char>, Error> {
    match f {
        FilesView::Fetched(files, streams) => if of_streams {
            if 0 <= id < streams.len() {
                Ok(streams[id].playlist_url)
            } else {
                Err(Error::OutOfBound(streams.len() as usize))
            }
        } else {
            if 0 <= id < files.len() {
                Ok(which(files[id]))
            } else {
                Err(Error::OutOfBound(files.len() as usize))
            }
        },
        FilesView::FetchedError(e) => Err(e),
        FilesView::NotFetched => Err(Error::NoContent),
    }
}

/// The value of a result that carries a string.
pub open spec fn string_result(r: Result<String, Error>) -> Result<Seq<char>, Error> {
    match r {
        Ok(s) => Ok(s@),
        Err(e) => Err(e),
    }
}

/// What the files of an answer become: no file and no stream is no content.
pub fn fetched_files(files: Vec<ser::video::File>, streams: Vec<ser::video::StreamingPlaylist>) -> (r: Result<
    (Vec<File>, Vec<StreamingPlaylist>),
    Error,
>)
    ensures
        files@.len() == 0 && streams@.len() == 0 ==> r == Err::<(Vec<File>, Vec<StreamingPlaylist>), Error>(
            Error::NoContent,
        ),
        files@.len() > 0 || streams@.len() > 0 ==> (r matches Ok((f, s)) && files_view(f@) == files@.map_values(
            |f: ser::video::File| file_of(f),
        ) && playlists_view(s@) == streams@.map_values(
            |p: ser::video::StreamingPlaylist| PlaylistView { id: p.id, playlist_url: p.playlist_url@ },
        )),
{
    let ghost fv = files@;
    let ghost sv = streams@;
    let fs = files_from(files);
    let ss = playlists_from(streams);
    assert(files_view(fs@).len() == fs@.len() && playlists_view(ss@).len() == ss@.len());
    assert(fs@.len() == fv.len() && ss@.len() == sv.len());
    if fs.len() == 0 && ss.len() == 0 {
        return Err(Error::NoContent);
    }
    Ok((fs, ss))
}

/// The resolutions of files, in order.
fn resolutions_of(files: &Vec<File>) -> (r: Vec<Resolution>)
    ensures
        resolutions_view(r@) == files_view(files@).map_values(|f: FileView| resolution_of(f)),
{
    let mut r: Vec<Resolution> = Vec::new();
    let mut i: usize = 0;
    while i < files.len()
        invariant
            i <= files@.len(),
            resolutions_view(r@) == files_view(files@).take(i as int).map_values(|f: FileView| resolution_of(f)),
        decreases files@.len() - i,
    {
        let res = Resolution::from_file(&files[i]);
        let ghost before = resolutions_view(r@);
        r.push(res);
        assert(resolutions_view(r@) =~= before.push(resolution_of(files@[i as int]@)));
        assert(files_view(files@).take(i + 1) =~= files_view(files@).take(i as int).push(files@[i as int]@));
        i += 1;
    }
    assert(files_view(files@).take(files@.len() as int) =~= files_view(files@));
    r
}

/// Copies of streams.
fn clone_playlists(v: &Vec<StreamingPlaylist>) -> (r: Vec<StreamingPlaylist>)
    ensures
        playlists_view(r@) == playlists_view(v@),
{
    let mut r: Vec<StreamingPlaylist> = Vec::new();
    let mut i: usize = 0;
    while i < v.len()
        invariant
            i <= v@.len(),
            playlists_view(r@) == playlists_view(v@).take(i as int),
        decreases v@.len() - i,
    {
        let c = v[i].clone();
        let ghost before = playlists_view(r@);
        r.push(c);
        assert(playlists_view(r@) =~= before.push(v@[i as int]@));
        assert(playlists_view(v@).take(i + 1) =~= playlists_view(v@).take(i as int).push(v@[i as int]@));
        i += 1;
    }
    assert(playlists_view(v@).take(v@.len() as int) =~= playlists_view(v@));
    r
}

impl Video {
    /// Has the description still to be fetched?
    pub fn needs_description(&self) -> (r: bool)
        ensures
            r == (self@.description is NotFetched),
    {
        match self.description {
            Description::NotFetched => true,
            _ => false,
        }
    }

    /// Have the files still to be fetched?
    pub fn needs_files(&self) -> (r: bool)
        ensures
            r == (self@.files is NotFetched),
    {
        match self.files {
            Files::NotFetched => true,
            _ => false,
        }
    }

    /// The full description: it is fetched once; `fetched` is what fetching
    /// it gave, needed when it has not been fetched yet.
    pub fn description(&mut self, fetched: Option<Result<Option<String>, Error>>) -> (r: Result<Option<String>, Error>)
        requires
            old(self)@.description is NotFetched ==> fetched is Some,
        ensures
            final(self)@ == (VideoView { description: description_with(old(self)@.description, fetched), ..old(self)@ }),
            r matches Ok(o) && opt_str(o) == description_text(final(self)@.description),
    {
        if let Description::NotFetched = self.description {
            match fetched {
                Some(Ok(Some(s))) => self.description = Description::Fetched(s),
                Some(Ok(None)) => self.description = Description::FetchedNone,
                Some(Err(err)) => self.description = Description::FetchedError(err),
                None => {},
            }
        }
        Ok(self.description.to_option())
    }

    /// Fetches the description, to have it later; an error of the fetch
    /// leaves it to be fetched again.
    pub fn load_description(&mut self, fetched: Option<Result<Option<String>, Error>>) -> (r: Result<(), Error>)
        requires
            old(self)@.description is NotFetched ==> fetched is Some,
        ensures
            old(self)@.description is NotFetched ==> (match fetched {
                Some(Err(e)) => r == Err::<(), Error>(e) && final(self)@ == old(self)@,
                _ => r is Ok && final(self)@ == (VideoView {
                    description: description_with(old(self)@.description, fetched),
                    ..old(self)@
                }),
            }),
            !(old(self)@.description is NotFetched) ==> r is Ok && final(self)@ == old(self)@,
    {
        if let Description::NotFetched = self.description {
            match fetched {
                Some(Ok(Some(s))) => self.description = Description::Fetched(s),
                Some(Ok(None)) => self.description = Description::FetchedNone,
                Some(Err(err)) => return Err(err),
                None => {},
            }
        }
        Ok(())
    }

    /// Fetches the files and streams, to have them later; an error of the
    /// fetch is kept, and returned.
    pub fn load_resolutions(&mut self, fetched: Option<Result<(Vec<File>, Vec<StreamingPlaylist>), Error>>) -> (r: Result<
        (),
        Error,
    >)
        requires
            old(self)@.files is NotFetched ==> fetched is Some,
        ensures
            final(self)@ == (VideoView { files: files_with(old(self)@.files, fetched), ..old(self)@ }),
            r == (if old(self)@.files is NotFetched && fetched matches Some(Err(e)) {
                Err::<(), Error>(fetched->0->Err_0)
            } else {
                Ok(())
            }),
    {
        if let Files::NotFetched = self.files {
            match fetched {
                Some(Ok((files, streams))) => self.files = Files::Fetched(files, streams),
                Some(Err(err)) => {
                    self.files = Files::FetchedError(err.clone());
                    return Err(err);
                },
                None => {},
            }
        }
        Ok(())
    }

    /// The resolutions of the video: its files are fetched once; `fetched`
    /// is what fetching them gave, needed when they have not been fetched yet.
    pub fn resolutions(&mut self, fetched: Option<Result<(Vec<File>, Vec<StreamingPlaylist>), Error>>) -> (r: Result<
        Vec<Resolution>,
        Error,
    >)
        requires
            old(self)@.files is NotFetched ==> fetched is Some,
        ensures
            final(self)@ == (VideoView { files: files_with(old(self)@.files, fetched), ..old(self)@ }),
            (match final(self)@.files {
                FilesView::Fetched(files, _) => r matches Ok(v) && resolutions_view(v@) == files.map_values(
                    |f: FileView| resolution_of(f),
                ),
                FilesView::FetchedError(e) => r == Err::<Vec<Resolution>, Error>(e),
                FilesView::NotFetched => false,
            }),
    {
        let _ = self.load_resolutions(fetched);
        match &self.files {
            Files::Fetched(files, _) => Ok(resolutions_of(files)),
            Files::FetchedError(err) => Err(err.clone()),
            Files::NotFetched => Err(Error::NoContent),
        }
    }

    /// The streams of the video: its files are fetched once; `fetched` is
    /// what fetching them gave, needed when they have not been fetched yet.
    pub fn streams(&mut self, fetched: Option<Result<(Vec<File>, Vec<StreamingPlaylist>), Error>>) -> (r: Result<
        Vec<StreamingPlaylist>,
        Error,
    >)
        requires
            old(self)@.files is NotFetched ==> fetched is Some,
        ensures
            final(self)@ == (VideoView { files: files_with(old(self)@.files, fetched), ..old(self)@ }),
            (match final(self)@.files {
                FilesView::Fetched(_, streams) => r matches Ok(v) && playlists_view(v@) == streams,
                FilesView::FetchedError(e) => r == Err::<Vec<StreamingPlaylist>, Error>(e),
                FilesView::NotFetched => false,
            }),
    {
        let _ = self.load_resolutions(fetched);
        match &self.files {
            Files::Fetched(_, streams) => Ok(clone_playlists(streams)),
            Files::FetchedError(err) => Err(err.clone()),
            Files::NotFetched => Err(Error::NoContent),
        }
    }

    /// The address of the file `id`.
    pub fn resolution_url(&self, id: usize) -> (r: Result<String, Error>)
        requires
            !(self@.files is NotFetched),
        ensures
            string_result(r) == url_choice(self@.files, id as int, |f: FileView| f.download_url, false),
    {
        match &self.files {
            Files::Fetched(res, _) => if id < res.len() {
                Ok(res[id].download_url.clone())
            } else {
                Err(Error::OutOfBound(res.len()))
            },
            Files::FetchedError(err) => Err(err.clone()),
            Files::NotFetched => Err(Error::NoContent),
        }
    }

    /// The address of the torrent of the file `id`.
    pub fn torrent_url(&self, id: usize) -> (r: Result<String, Error>)
        requires
            !(self@.files is NotFetched),
        ensures
            string_result(r) == url_choice(self@.files, id as int, |f: FileView| f.torrent_download_url, false),
    {
        match &self.files {
            Files::Fetched(res, _) => if id < res.len() {
                Ok(res[id].torrent_download_url.clone())
            } else {
                Err(Error::OutOfBound(res.len()))
            },
            Files::FetchedError(err) => Err(err.clone()),
            Files::NotFetched => Err(Error::NoContent),
        }
    }

    /// The address of the stream `id`.
    pub fn stream_url(&self, id: usize) -> (r: Result<String, Error>)
        requires
            !(self@.files is NotFetched),
        ensures
            string_result(r) == url_choice(self@.files, id as int, |f: FileView| f.download_url, true),
    {
        match &self.files {
            Files::Fetched(_, res) => if id < res.len() {
                Ok(res[id].playlist_url.clone())
            } else {
                Err(Error::OutOfBound(res.len()))
            },
            Files::FetchedError(err) => Err(err.clone()),
            Files::NotFetched => Err(Error::NoContent),
        }
    }

    /// Has the video a stream?
    pub fn has_streams(&self) -> (r: Result<bool, Error>)
        requires
            !(self@.files is NotFetched),
        ensures
            (match self@.files {
                FilesView::Fetched(_, streams) => r == Ok::<bool, Error>(streams.len() > 0),
                FilesView::FetchedError(e) => r == Err::<bool, Error>(e),
                FilesView::NotFetched => false,
            }),
    {
        match &self.files {
            Files::Fetched(_, streams) => Ok(streams.len() > 0),
            Files::FetchedError(err) => Err(err.clone()),
            Files::NotFetched => Err(Error::NoContent),
        }
    }

    /// Has the video a file?
    pub fn has_files(&self) -> (r: Result<bool, Error>)
        requires
            !(self@.files is NotFetched),
        ensures
            (match self@.files {
                FilesView::Fetched(files, _) => r == Ok::<bool, Error>(files.len() > 0),
                FilesView::FetchedError(e) => r == Err::<bool, Error>(e),
                FilesView::NotFetched => false,
            }),
    {
        match &self.files {
            Files::Fetched(files, _) => Ok(files.len() > 0),
            Files::FetchedError(err) => Err(err.clone()),
            Files::NotFetched => Err(Error::NoContent),
        }
    }
}

/// The address to watch a video from a browser.
pub open spec fn watch_url_of(v: VideoView) -> Seq<char> {
    "https://"@ + v.account.host@ + "/videos/watch/"@ + v.uuid
}

impl Video {
    /// The address to watch the video from a browser.
    pub fn watch_url(&self) -> (r: String)
        ensures
            r@ == watch_url_of(self@),
    {
        let mut video_url = String::from_str("https://");
        video_url.append(self.account.host.as_str());
        video_url.append("/videos/watch/");
        video_url.append(self.uuid.as_str());
        video_url
    }

    /// The instance the video is tied to.
    pub fn instance(&self) -> (r: &Arc<Instance>)
        ensures
            (**r)@ == self@.instance,
    {
        &self.instance
    }

    /// The name of the video.
    pub fn name(&self) -> (r: &str)
        ensures
            r@ == self@.name,
    {
        self.name.as_str()
    }

    /// The UUID of the video.
    pub fn uuid(&self) -> (r: &str)
        ensures
            r@ == self@.uuid,
    {
        self.uuid.as_str()
    }

    /// The short description that the search gave.
    pub fn short_desc(&self) -> (r: Option<&str>)
        ensures
            (match r {
                Some(d) => self@.short_desc == Some(d@),
                None => self@.short_desc is None,
            }),
    {
        match &self.short_desc {
            Some(d) => Some(d.as_str()),
            None => None,
        }
    }

    /// When the video was published.
    pub fn published(&self) -> (r: Option<&Timestamp>)
        ensures
            (match r {
                Some(t) => self@.published == Some(*t),
                None => self@.published is None,
            }),
    {
        match &self.published {
            Some(t) => Some(t),
            None => None,
        }
    }

    /// The length of the video, in seconds.
    pub fn duration(&self) -> (r: u64)
        ensures
            r == self@.duration,
    {
        self.duration
    }

    /// Is the video a livestream?
    pub fn is_live(&self) -> (r: bool)
        ensures
            r == self@.is_live,
    {
        self.is_live
    }

    /// How many times the video was watched.
    pub fn views(&self) -> (r: u64)
        ensures
            r == self@.views,
    {
        self.views
    }

    /// How many liked the video.
    pub fn likes(&self) -> (r: u64)
        ensures
            r == self@.likes,
    {
        self.likes
    }

    /// Is the video not safe for work?
    pub fn nsfw(&self) -> (r: bool)
        ensures
            r == self@.nsfw,
    {
        self.nsfw
    }

    /// How many disliked the video.
    pub fn dislikes(&self) -> (r: u64)
        ensures
            r == self@.dislikes,
    {
        self.dislikes
    }

    /// The state of the video.
    pub fn state(&self) -> (r: &State)
        ensures
            *r == self@.state,
    {
        &self.state
    }

    /// The host of the account that published the video.
    pub fn host(&self) -> (r: &str)
        ensures
            r@ == self@.account.host@,
    {
        self.account.host.as_str()
    }

    /// The name the channel of the video shows.
    pub fn channel_display_name(&self) -> (r: &str)
        ensures
            r@ == self@.channel.display_name@,
    {
        self.channel.display_name.as_str()
    }

    /// The name the channel of the video shows.
    pub fn channel_display(&self) -> (r: &str)
        ensures
            r@ == self@.channel.display_name@,
    {
        self.channel.display_name.as_str()
    }

    /// The name the account of the video shows.
    pub fn account_display(&self) -> (r: &str)
        ensures
            r@ == self@.account.display_name@,
    {
        self.account.display_name.as_str()
    }
}

/// A description is fetched once: after the first fetch nothing is left to
/// fetch, what a second fetch gives is not kept, and the text given from then
/// on is the one fetched (none when the fetch failed or found none).
pub proof fn lemma_description_fetched_once(
    d: DescriptionView,
    first: Result<Option<String>, Error>,
    second: Option<Result<Option<String>, Error>>,
)
    ensures
        description_with(description_after(d, first), second) == description_after(d, first),
        d is NotFetched ==> !(description_after(d, first) is NotFetched),
        d is NotFetched ==> description_text(description_after(d, first)) == (match first {
            Ok(Some(s)) => Some(s@),
            _ => None::<Seq<char>>,
        }),
{
}

/// Files are fetched once: after the first fetch nothing is left to fetch,
/// what a second fetch gives is not kept, and an error of the first fetch
/// stays; the files and streams from then on are those first fetched.
pub proof fn lemma_files_fetched_once(
    f: FilesView,
    first: Result<(Vec<File>, Vec<StreamingPlaylist>), Error>,
    second: Option<Result<(Vec<File>, Vec<StreamingPlaylist>), Error>>,
)
    ensures
        files_with(files_after(f, first), second) == files_after(f, first),
        f is NotFetched ==> !(files_after(f, first) is NotFetched),
        f is NotFetched ==> files_after(f, first) == (match first {
            Ok((fs, ss)) => FilesView::Fetched(files_view(fs@), playlists_view(ss@)),
            Err(e) => FilesView::FetchedError(e),
        }),
{
}

} // verus!
