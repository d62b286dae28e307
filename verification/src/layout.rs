//! The layout of the lines of a list of videos.
use vstd::prelude::*;
use crate::api::video::{Video, VideoView};
use crate::helpers::{display_count, pretty_duration, pretty_date_at, pretty_date_spec, pretty_duration_spec, scaled_text};
use crate::dates::now;
use crate::text::decimal;
use crate::dates::Timestamp;
use crate::display::{Piece, PieceView, ListRow, RowView, pieces_view, rows_view};
use crate::config::{Config, Blocklist};
use crate::history::{History, HistoryT};

verus! {

broadcast use vstd::string::group_string_axioms;

/// An item of the line of a video.
#[derive(Debug, Clone)]
pub enum VideoLayoutItem {
    /// An escape sequence, written only with colors.
    Style(String),
    Name,
    Channel,
    Host,
    /// `nsfw` for a video not safe for work, nothing else.
    Nsfw,
    Views,
    Duration,
    /// Where the next column starts.
    Alignement,
    /// How long ago the video was published.
    Published,
    /// A fixed text.
    String(String),
}

/// The text of an item of the line of the video `v`; for the publication
/// date, `now` is the current time.
pub open spec fn item_text(item: VideoLayoutItem, v: VideoView, now: Timestamp) -> Seq<char> {
    match item {
        VideoLayoutItem::Name => v.name,
        VideoLayoutItem::Channel => v.channel.display_name@,
        VideoLayoutItem::Host => v.account.host@,
        VideoLayoutItem::Nsfw => if v.nsfw {
            "nsfw"@
        } else {
            Seq::empty()
        },
        VideoLayoutItem::Views => scaled_text(v.views as nat, 1000),
        VideoLayoutItem::Duration => pretty_duration_spec(v.duration as nat),
        VideoLayoutItem::Published => match v.published {
            Some(d) => pretty_date_spec(now, d),
            None => Seq::empty(),
        },
        VideoLayoutItem::String(s) => s@,
        _ => Seq::empty(),
    }
}

impl VideoLayoutItem {
    /// Is the item where a column starts?
    pub fn is_align(&self) -> (r: bool)
        ensures
            r == (*self is Alignement),
    {
        match self {
            VideoLayoutItem::Alignement => true,
            _ => false,
        }
    }

    /// Is the item an escape sequence?
    pub fn is_style(&self) -> (r: bool)
        ensures
            r == (*self is Style),
    {
        match self {
            VideoLayoutItem::Style(_) => true,
            _ => false,
        }
    }

    /// The escape sequence of a style item.
    pub fn display_as_style(&self) -> (r: String)
        requires
            *self is Style,
        ensures
            r@ == self->Style_0@,
    {
        match self {
            VideoLayoutItem::Style(s) => s.clone(),
            _ => String::new(),
        }
    }

    /// The text of an item that does not depend on the current time.
    fn timeless_text(&self, v: &Video) -> (r: String)
        requires
            !(*self is Alignement),
            !(*self is Style),
            !(*self is Published),
            *self is Views ==> v@.views < 1000000000000000,
        ensures
            forall|t: Timestamp| r@ == #[trigger] item_text(*self, v@, t),
    {
        match self {
            VideoLayoutItem::Name => String::from_str(v.name()),
            VideoLayoutItem::Channel => String::from_str(v.channel_display()),
            VideoLayoutItem::Host => String::from_str(v.host()),
            VideoLayoutItem::Nsfw => if v.nsfw() {
                String::from_str("nsfw")
            } else {
                String::new()
            },
            VideoLayoutItem::Views => display_count(v.views()),
            VideoLayoutItem::Duration => pretty_duration(v.duration()),
            VideoLayoutItem::String(s) => s.clone(),
            _ => String::new(),
        }
    }

    /// The text of the item for the video `v` (not for a column start or a
    /// style), the publication date counted from `now`.
    pub fn display_at(&self, v: &Video, now: &Timestamp) -> (r: String)
        requires
            !(*self is Alignement),
            !(*self is Style),
            *self is Views ==> v@.views < 1000000000000000,
        ensures
            r@ == item_text(*self, v@, *now),
    {
        if let VideoLayoutItem::Published = self {
            match v.published() {
                Some(d) => pretty_date_at(now, d),
                None => String::new(),
            }
        } else {
            self.timeless_text(v)
        }
    }

    /// The text of the item for the video `v` (not for a column start or a
    /// style); the publication date is counted from the current time.
    pub fn display(&self, v: &Video) -> (r: String)
        requires
            !(*self is Alignement),
            !(*self is Style),
            *self is Views ==> v@.views < 1000000000000000,
        ensures
            exists|now: Timestamp| r@ == item_text(*self, v@, now),
    {
        if let VideoLayoutItem::Published = self {
            let n = now();
            return self.display_at(v, &n);
        }
        let r = self.timeless_text(v);
        proof {
            let w: Timestamp = vstd::pervasive::arbitrary();
            assert(r@ == item_text(*self, v@, w));
        }
        r
    }
}

/// The pieces `ps` are the line of the video `v` with the layout `layout`:
/// each item gives one piece, the dates counted from some current time.
pub open spec fn pieces_for(ps: Seq<PieceView>, layout: Seq<VideoLayoutItem>, v: VideoView) -> bool {
    &&& ps.len() == layout.len()
    &&& forall|i: int| 0 <= i < layout.len() ==> match #[trigger] layout[i] {
        VideoLayoutItem::Alignement => ps[i] is Align,
        VideoLayoutItem::Style(st) => ps[i] == PieceView::Style(st@),
        _ => exists|now: Timestamp| ps[i] == PieceView::Text(item_text(layout[i], v, now)),
    }
}

/// The layout shows the views of a video only when they can be written.
pub open spec fn views_fit(layout: Seq<VideoLayoutItem>, v: VideoView) -> bool {
    (exists|i: int| 0 <= i < layout.len() && layout[i] is Views) ==> v.views < 1000000000000000
}

/// The pieces of the line of the video `v` with the layout `layout`.
pub fn video_pieces(layout: &Vec<VideoLayoutItem>, v: &Video) -> (r: Vec<Piece>)
    requires
        views_fit(layout@, v@),
    ensures
        pieces_for(pieces_view(r@), layout@, v@),
{
    let mut r: Vec<Piece> = Vec::new();
    let mut i: usize = 0;
    while i < layout.len()
        invariant
            i <= layout@.len(),
            views_fit(layout@, v@),
            r@.len() == i,
            forall|j: int| 0 <= j < i ==> match #[trigger] layout@[j] {
                VideoLayoutItem::Alignement => r@[j]@ is Align,
                VideoLayoutItem::Style(st) => r@[j]@ == PieceView::Style(st@),
                _ => exists|now: Timestamp| r@[j]@ == PieceView::Text(item_text(layout@[j], v@, now)),
            },
        decreases layout@.len() - i,
    {
        let item = &layout[i];
        if item.is_align() {
            r.push(Piece::Align);
        } else if item.is_style() {
            r.push(Piece::Style(item.display_as_style()));
        } else {
            proof {
                if *item is Views {
                    assert(layout@[i as int] is Views);
                }
            }
            let t = item.display(v);
            r.push(Piece::Text(t));
        }
        i += 1;
    }
    proof {
        assert forall|j: int| 0 <= j < layout@.len() implies match #[trigger] layout@[j] {
            VideoLayoutItem::Alignement => pieces_view(r@)[j] is Align,
            VideoLayoutItem::Style(st) => pieces_view(r@)[j] == PieceView::Style(st@),
            _ => exists|now: Timestamp| pieces_view(r@)[j] == PieceView::Text(item_text(layout@[j], v@, now)),
        } by {
            assert(pieces_view(r@)[j] == r@[j]@);
        }
    }
    r
}

/// The row of a video in a list: hidden when `config` blocks its instance,
/// else in the layout for watched videos when `history` knows it.
pub open spec fn video_row_for(
    row: RowView,
    config: Config,
    history: History,
    layout: Seq<VideoLayoutItem>,
    seen_layout: Seq<VideoLayoutItem>,
    v: VideoView,
) -> bool {
    if config@.is_allowlist != config@.listed_instances.contains(v.account.host@) {
        row == RowView::Blocked("Blocked video from: "@ + v.account.host@)
    } else {
        row matches RowView::Shown(ps) && pieces_for(
            ps,
            if history.viewed().contains(v.uuid) {
                seen_layout
            } else {
                layout
            },
            v,
        )
    }
}

/// The rows of a list of videos.
pub fn video_rows(
    videos: &Vec<&Video>,
    history: &History,
    config: &Config,
    layout: &Vec<VideoLayoutItem>,
    seen_layout: &Vec<VideoLayoutItem>,
) -> (r: Vec<ListRow>)
    requires
        forall|i: int| 0 <= i < videos@.len() ==> views_fit(layout@, videos@[i]@) && views_fit(
            seen_layout@,
            videos@[i]@,
        ),
    ensures
        r@.len() == videos@.len(),
        forall|i: int| 0 <= i < videos@.len() ==> video_row_for(
            #[trigger] r@[i]@,
            *config,
            *history,
            layout@,
            seen_layout@,
            videos@[i]@,
        ),
{
    let mut r: Vec<ListRow> = Vec::new();
    let mut i: usize = 0;
    while i < videos.len()
        invariant
            i <= videos@.len(),
            forall|j: int| 0 <= j < videos@.len() ==> views_fit(layout@, videos@[j]@) && views_fit(
                seen_layout@,
                videos@[j]@,
            ),
            r@.len() == i,
            forall|j: int| 0 <= j < i ==> video_row_for(
                #[trigger] r@[j]@,
                *config,
                *history,
                layout@,
                seen_layout@,
                videos@[j]@,
            ),
        decreases videos@.len() - i,
    {
        let v: &Video = videos[i];
        let row = match config.is_blocked(v) {
            Some(reason) => ListRow::Blocked(reason),
            None => {
                if history.is_viewed(v) {
                    ListRow::Shown(video_pieces(seen_layout, v))
                } else {
                    ListRow::Shown(video_pieces(layout, v))
                }
            },
        };
        r.push(row);
        i += 1;
    }
    r
}

} // verus!
