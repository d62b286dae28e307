//! What the interface shows, as text.
use vstd::prelude::*;
use crate::text::{push_char, u64_to_string, usize_to_string, decimal};
use crate::dates::Timestamp;
use crate::helpers::{pretty_duration_or_live, pretty_size, full_date, display_length, pretty_duration_spec, scaled_text};
use crate::dates::long_date_text;
use crate::api::video::{Video, VideoView, Resolution, ResolutionView, resolutions_view, watch_url_of};
use crate::api::channels::{Channel, ChannelView};
use crate::config::opt_str;

verus! {

broadcast use vstd::string::group_string_axioms;

/// The colors the interface writes with.
#[derive(Debug, Clone, Copy, PartialEq, Eq, Structural)]
pub enum TermColor {
    Red,
    Green,
    Yellow,
    Cyan,
    /// The default color of the terminal.
    Reset,
}

/// The styles the interface writes with.
#[derive(Debug, Clone, Copy, PartialEq, Eq, Structural)]
pub enum TermStyle {
    Bold,
    Underline,
    /// Back to the plain style.
    Reset,
}

/// The escape sequence that sets the color of the text.
pub open spec fn fg_text(c: TermColor) -> Seq<char> {
    match c {
        TermColor::Red => "\x1b[38;5;1m"@,
        TermColor::Green => "\x1b[38;5;2m"@,
        TermColor::Yellow => "\x1b[38;5;3m"@,
        TermColor::Cyan => "\x1b[38;5;6m"@,
        TermColor::Reset => "\x1b[39m"@,
    }
}

/// The escape sequence that sets a style.
pub open spec fn style_text(s: TermStyle) -> Seq<char> {
    match s {
        TermStyle::Bold => "\x1b[1m"@,
        TermStyle::Underline => "\x1b[4m"@,
        TermStyle::Reset => "\x1b[m"@,
    }
}

/// What `termion` writes for `color::Fg` of the color: the source writes
/// `ESC [ 38;5;n m` for the color number n (red 1, green 2, yellow 3, cyan 6)
/// and `ESC [ 39m` for `Reset`.
#[verifier::external_body]
fn fg_code(c: TermColor) -> (r: String)
    ensures
        r@ == fg_text(c),
{
    match c {
        TermColor::Red => format!("{}", termion::color::Fg(termion::color::Red)),
        TermColor::Green => format!("{}", termion::color::Fg(termion::color::Green)),
        TermColor::Yellow => format!("{}", termion::color::Fg(termion::color::Yellow)),
        TermColor::Cyan => format!("{}", termion::color::Fg(termion::color::Cyan)),
        TermColor::Reset => format!("{}", termion::color::Fg(termion::color::Reset)),
    }
}

/// What `termion` writes for `style::Bold`, `style::Underline` and
/// `style::Reset`: the source writes `ESC [ 1m`, `ESC [ 4m` and `ESC [ m`.
#[verifier::external_body]
fn style_code(s: TermStyle) -> (r: String)
    ensures
        r@ == style_text(s),
{
    match s {
        TermStyle::Bold => format!("{}", termion::style::Bold),
        TermStyle::Underline => format!("{}", termion::style::Underline),
        TermStyle::Reset => format!("{}", termion::style::Reset),
    }
}

/// The sequence that sets the color, or nothing when colors are off.
pub open spec fn fg_or_none(c: TermColor, use_color: bool) -> Seq<char> {
    if use_color {
        fg_text(c)
    } else {
        Seq::empty()
    }
}

/// The sequence that sets the color of the text, or nothing when colors are off.
pub fn fg_color(c: TermColor, use_color: bool) -> (r: String)
    ensures
        r@ == fg_or_none(c, use_color),
{
    if use_color {
        fg_code(c)
    } else {
        String::new()
    }
}

/// The sequence that sets a style.
pub fn style(s: TermStyle) -> (r: String)
    ensures
        r@ == style_text(s),
{
    style_code(s)
}

/// `c` written `n` times.
pub open spec fn repeated(c: char, n: nat) -> Seq<char> {
    Seq::new(n, |i: int| c)
}

/// Appends `c` written `n` times.
pub fn push_repeated(s: &mut String, c: char, n: usize)
    ensures
        final(s)@ == old(s)@ + repeated(c, n as nat),
{
    let mut i: usize = 0;
    while i < n
        invariant
            i <= n,
            s@ == old(s)@ + repeated(c, i as nat),
        decreases n - i,
    {
        push_char(s, c);
        assert(old(s)@ + repeated(c, (i + 1) as nat) =~= old(s)@ + repeated(c, i as nat) + seq![c]);
        i += 1;
    }
}

/// A line of `c` across the terminal, `cols` wide.
pub fn ruler(c: char, cols: usize) -> (r: String)
    ensures
        r@ == repeated(c, cols as nat),
{
    let mut s = String::new();
    push_repeated(&mut s, c, cols);
    assert(s@ =~= repeated(c, cols as nat));
    s
}

/// `s` centered on a terminal `cols` wide; as it is when it is wider.
pub open spec fn centered_text(s: Seq<char>, cols: nat) -> Seq<char> {
    if s.len() > cols {
        s
    } else {
        repeated(' ', ((cols - s.len()) / 2) as nat) + s
    }
}

/// `s` centered on a terminal `cols` wide; as it is when it is wider.
pub fn centered(s: &str, cols: usize) -> (r: String)
    ensures
        r@ == centered_text(s@, cols as nat),
{
    let len = s.unicode_len();
    if len > cols {
        return String::from_str(s);
    }
    let mut r = String::new();
    push_repeated(&mut r, ' ', (cols - len) / 2);
    r.append(s);
    assert(r@ =~= centered_text(s@, cols as nat));
    r
}

/// The lines of the help.
pub const HELP: &'static str = "# MODES\n\n<keywords>           : search for a video\n:h(elp)              : display this help\n:trending            : get trending videos\n:channels <keywords> : search for a channel\n:info  <ID>          : get info for one of the currently displayed items\n:comments <ID>       : get comments for a video\n:browser <ID>        : open an item in the browser\n\n# NAVIGATING\n:n(ext)              : see more items\n:p(revious)          : return to the previous items\n:q(uit)\n";

/// The output of the interface, with colors or without.
#[derive(Debug, Clone, Copy)]
pub struct Display {
    colors: bool,
}

/// The three lines that greet the connection to `instance`.
pub open spec fn welcome_text(instance: Seq<char>, cols: nat) -> Seq<char> {
    repeated('=', cols) + seq!['\n'] + centered_text("Connecting to: "@ + instance, cols) + seq!['\n'] + repeated(
        '=',
        cols,
    ) + seq!['\n']
}

/// The line that tells which results are shown.
pub open spec fn mode_info_text(mode: Seq<char>, total: nat, offset: nat, current_len: nat) -> Seq<char> {
    style_text(TermStyle::Bold) + style_text(TermStyle::Underline) + mode + " results "@ + decimal(offset) + " to "@
        + decimal(offset + current_len) + " out of "@ + decimal(total) + " (:h for help)"@ + style_text(
        TermStyle::Reset,
    )
}

impl Display {
    /// The output, with colors when `colors`.
    pub fn new(colors: bool) -> (r: Display)
        ensures
            r.colors() == colors,
    {
        Display { colors }
    }

    /// Does the output use colors?
    pub closed spec fn colors(self) -> bool {
        self.colors
    }

    /// The text of an error: red (when colors are on) and bold.
    pub fn err_text(&self, msg: &str) -> (r: String)
        ensures
            r@ == fg_or_none(TermColor::Red, self.colors()) + style_text(TermStyle::Bold) + msg@ + style_text(
                TermStyle::Reset,
            ) + fg_or_none(TermColor::Reset, self.colors()),
    {
        let mut s = fg_color(TermColor::Red, self.colors);
        let b = style(TermStyle::Bold);
        s.append(b.as_str());
        s.append(msg);
        let r = style(TermStyle::Reset);
        s.append(r.as_str());
        let f = fg_color(TermColor::Reset, self.colors);
        s.append(f.as_str());
        s
    }

    /// The text of a warning: yellow (when colors are on) and bold.
    pub fn warn_text(&self, msg: &str) -> (r: String)
        ensures
            r@ == fg_or_none(TermColor::Yellow, self.colors()) + style_text(TermStyle::Bold) + msg@ + style_text(
                TermStyle::Reset,
            ) + fg_or_none(TermColor::Reset, self.colors()),
    {
        let mut s = fg_color(TermColor::Yellow, self.colors);
        let b = style(TermStyle::Bold);
        s.append(b.as_str());
        s.append(msg);
        let r = style(TermStyle::Reset);
        s.append(r.as_str());
        let f = fg_color(TermColor::Reset, self.colors);
        s.append(f.as_str());
        s
    }

    /// The text of an information: bold and underlined.
    pub fn info_text(&self, msg: &str) -> (r: String)
        ensures
            r@ == style_text(TermStyle::Bold) + style_text(TermStyle::Underline) + msg@ + style_text(TermStyle::Reset),
    {
        let mut s = style(TermStyle::Bold);
        let u = style(TermStyle::Underline);
        s.append(u.as_str());
        s.append(msg);
        let r = style(TermStyle::Reset);
        s.append(r.as_str());
        s
    }

    /// The line that tells that the browsing can go on after an error.
    pub fn continue_text(&self) -> (r: String)
        ensures
            r@ == style_text(TermStyle::Bold) + style_text(TermStyle::Underline)
                + "You can continue browsing the PeerTube network"@ + style_text(TermStyle::Reset),
    {
        self.info_text("You can continue browsing the PeerTube network")
    }

    /// The line that tells which results are shown: `current_len` results
    /// from the `offset`-th, out of `total`.
    pub fn mode_info_text(&self, mode: &str, total: usize, offset: usize, current_len: usize) -> (r: String)
        requires
            offset + current_len <= usize::MAX,
        ensures
            r@ == mode_info_text(mode@, total as nat, offset as nat, current_len as nat),
    {
        let mut s = style(TermStyle::Bold);
        let u = style(TermStyle::Underline);
        s.append(u.as_str());
        s.append(mode);
        s.append(" results ");
        let o = usize_to_string(offset);
        s.append(o.as_str());
        s.append(" to ");
        let e = usize_to_string(offset + current_len);
        s.append(e.as_str());
        s.append(" out of ");
        let t = usize_to_string(total);
        s.append(t.as_str());
        s.append(" (:h for help)");
        let r = style(TermStyle::Reset);
        s.append(r.as_str());
        s
    }

    /// The lines that greet the connection to `instance`, on a terminal `cols` wide.
    pub fn welcome(&self, instance: &str, cols: usize) -> (r: String)
        ensures
            r@ == welcome_text(instance@, cols as nat),
    {
        let mut s = ruler('=', cols);
        push_char(&mut s, '\n');
        let mut title = String::from_str("Connecting to: ");
        title.append(instance);
        let c = centered(title.as_str(), cols);
        s.append(c.as_str());
        push_char(&mut s, '\n');
        let l = ruler('=', cols);
        s.append(l.as_str());
        push_char(&mut s, '\n');
        s
    }

    /// The text that asks for a bug report about an error (written with
    /// `debug`) met on `host`.
    pub fn report_error_text(&self, debug: &str, host: &str) -> (r: String)
        ensures
            r@ == "If you believe that this is a bug from peertube-viewer-rs, please file a bug report at:\n"@
                + style_text(TermStyle::Bold) + "https://gitlab.com/peertube-viewer/peertube-viewer-rs/-/issues"@
                + style_text(TermStyle::Reset)
                + "\n\nWith the following information (you might want to anonymise it before sending it):\n"@ + debug@
                + "\nOn instance: "@ + host@ + "\n"@,
    {
        let mut s = String::from_str(
            "If you believe that this is a bug from peertube-viewer-rs, please file a bug report at:\n",
        );
        let b = style(TermStyle::Bold);
        s.append(b.as_str());
        s.append("https://gitlab.com/peertube-viewer/peertube-viewer-rs/-/issues");
        let r = style(TermStyle::Reset);
        s.append(r.as_str());
        s.append("\n\nWith the following information (you might want to anonymise it before sending it):\n");
        s.append(debug);
        s.append("\nOn instance: ");
        s.append(host);
        s.append("\n");
        s
    }

    /// The help.
    pub fn help(&self) -> (r: &'static str)
        ensures
            r@ == HELP@,
    {
        HELP
    }
}

/// A number has no more digits than a larger one.
pub proof fn lemma_decimal_len_monotonic(a: nat, b: nat)
    requires
        a <= b,
    ensures
        decimal(a).len() <= decimal(b).len(),
    decreases b,
{
    if b >= 10 && a >= 10 {
        lemma_decimal_len_monotonic(a / 10, b / 10);
    } else if b >= 10 {
        crate::helpers::lemma_decimal_len(b / 10);
    }
}

/// What `textwrap` makes of `text` for lines `width` wide.
pub uninterp spec fn wrapped_text(text: Seq<char>, width: nat) -> Seq<char>;

/// `textwrap::fill` with the width `width`: the text broken into lines. The
/// contract names the result `wrapped_text` of the text and the width.
#[verifier::external_body]
fn fill_text(text: &str, width: usize) -> (r: String)
    ensures
        r@ == wrapped_text(text@, width as nat),
{
    textwrap::fill(text, width)
}

/// What `time` writes for an instant with its offset (`Display` of
/// `OffsetDateTime`), from its seconds, nanoseconds and offset.
pub uninterp spec fn date_time_text(unix_seconds: int, nanos: int, offset_seconds: int) -> Seq<char>;

/// `Display` of the `time` crate's `OffsetDateTime` for the instant: the
/// contract names the text `date_time_text` of its parts.
#[verifier::external_body]
fn format_date_time(t: &Timestamp) -> (r: String)
    ensures
        r@ == date_time_text(t.seconds(), t.nanos(), t.offset()),
{
    let offset = time::UtcOffset::from_whole_seconds(t.offset_seconds()).unwrap();
    let d = time::OffsetDateTime::from_unix_timestamp(t.unix_seconds()).unwrap()
        .replace_nanosecond(t.nanosecond()).unwrap().to_offset(offset);
    format!("{}", d)
}

/// The widest label of resolutions, and at least 10 (the width of `Resolution`).
pub open spec fn max_label_len(rs: Seq<ResolutionView>) -> nat
    decreases rs.len(),
{
    if rs.len() == 0 {
        10
    } else {
        let m = max_label_len(rs.drop_last());
        if rs.last().label.len() > m {
            rs.last().label.len()
        } else {
            m
        }
    }
}

/// The widest label is at least 10 wide, and no label is wider.
pub proof fn lemma_max_label_len(rs: Seq<ResolutionView>)
    ensures
        max_label_len(rs) >= 10,
        forall|j: int| 0 <= j < rs.len() ==> #[trigger] rs[j].label.len() <= max_label_len(rs),
    decreases rs.len(),
{
    if rs.len() > 0 {
        lemma_max_label_len(rs.drop_last());
        assert forall|j: int| 0 <= j < rs.len() implies #[trigger] rs[j].label.len() <= max_label_len(rs) by {
            if j < rs.len() - 1 {
                assert(rs[j] == rs.drop_last()[j]);
            }
        }
    }
}

/// The line of the resolution `r`, the `i`-th (from 0) of `n`.
pub open spec fn resolution_line(i: nat, n: nat, r: ResolutionView, max_len: nat) -> Seq<char> {
    decimal(i + 1) + repeated(' ', (decimal(n).len() - decimal(i + 1).len()) as nat) + ": "@ + r.label + " "@
        + repeated(' ', (max_len - r.label.len()) as nat) + " "@ + scaled_text(r.size as nat, 1024) + "B"@ + "\n"@
}

/// The lines of the first `k` resolutions.
pub open spec fn resolution_lines(rs: Seq<ResolutionView>, k: nat, max_len: nat) -> Seq<char>
    decreases k,
{
    if k == 0 {
        Seq::empty()
    } else {
        resolution_lines(rs, (k - 1) as nat, max_len) + resolution_line(
            (k - 1) as nat,
            rs.len(),
            rs[k - 1],
            max_len,
        )
    }
}

/// The table of the resolutions to choose from.
pub open spec fn resolutions_table(rs: Seq<ResolutionView>, cols: nat) -> Seq<char> {
    let n = rs.len();
    let m = max_label_len(rs);
    repeated('=', cols) + "\n"@ + centered_text("Resolution selection"@, cols) + "\n"@ + repeated('=', cols) + "\n"@
        + repeated(' ', decimal(n).len() + 2) + "Resolution"@ + repeated(' ', (m - 10 + 2) as nat) + "Size"@
        + "\n"@ + resolution_lines(rs, n, m)
}

/// The description part of an information sheet: none for an empty or missing description.
pub open spec fn description_part(desc: Option<Seq<char>>, cols: nat) -> Seq<char> {
    match desc {
        Some(d) => if d.len() > 0 {
            centered_text("DESCRIPTION"@, cols) + "\n"@ + repeated('=', cols) + "\n"@ + wrapped_text(d, cols) + "\n"@
                + repeated('=', cols) + "\n"@
        } else {
            Seq::empty()
        },
        None => Seq::empty(),
    }
}

/// The title of an information sheet, between two lines.
pub open spec fn title_part(title: Seq<char>, cols: nat) -> Seq<char> {
    repeated('=', cols) + "\n"@ + centered_text(title, cols) + "\n"@ + repeated('=', cols) + "\n"@
}

/// The header of the information part of a sheet.
pub open spec fn information_header(cols: nat) -> Seq<char> {
    centered_text("INFORMATION"@, cols) + "\n"@ + repeated('=', cols) + "\n"@
}

/// The figures of a video: duration, views, likes, dislikes, release date.
pub open spec fn video_figures(v: VideoView) -> Seq<char> {
    "duration : "@ + (if v.is_live {
        "LIVE"@
    } else {
        pretty_duration_spec(v.duration as nat)
    }) + "\n"@ + "views    : "@ + decimal(v.views as nat) + "\n"@ + "likes    : "@ + decimal(v.likes as nat) + "\n"@
        + "dislikes : "@ + decimal(v.dislikes as nat) + "\n"@ + "released : "@ + (match v.published {
        Some(t) => long_date_text(t.seconds(), t.offset()),
        None => Seq::empty(),
    }) + "\n"@
}

/// Who published a video, and where to watch it.
pub open spec fn video_origin(v: VideoView) -> Seq<char> {
    "account  : "@ + v.account.display_name@ + "\n"@ + "channel  : "@ + v.channel.display_name@ + "\n"@
        + "host     : "@ + v.account.host@ + "\n"@ + "url      : "@ + watch_url_of(v) + "\n"@
}

/// The mark of a video not safe for work.
pub open spec fn nsfw_mark(nsfw: bool, colors: bool) -> Seq<char> {
    if nsfw {
        fg_or_none(TermColor::Red, colors) + "nsfw"@ + style_text(TermStyle::Reset) + "\n"@
    } else {
        Seq::empty()
    }
}

/// The information sheet of a video, with its full description when known.
pub open spec fn video_info_text(v: VideoView, desc: Option<Seq<char>>, cols: nat, colors: bool) -> Seq<char> {
    title_part(v.name, cols) + description_part(desc, cols) + information_header(cols) + video_figures(v)
        + video_origin(v) + nsfw_mark(v.nsfw, colors) + repeated('=', cols) + "\n"@
}

/// The information sheet of a channel.
pub open spec fn channel_info_text(c: ChannelView, cols: nat) -> Seq<char> {
    title_part(c.display_name, cols) + description_part(c.description, cols) + "name          : "@ + c.name + "\n"@
        + "display_name  : "@ + c.display_name + "\n"@ + "host          : "@ + c.host + "\n"@ + "followers     : "@
        + decimal(c.followers as nat) + "\n"@ + "created       : "@ + date_time_text(
        c.created_at.seconds(),
        c.created_at.nanos(),
        c.created_at.offset(),
    ) + "\n"@ + "handle        : "@ + c.name + "@"@ + c.host + "\n"@ + "rss feed      : "@ + c.id.0
        + "/feeds/videos.xml?videoChannelId="@ + decimal(c.id.1 as nat) + "\n"@ + "atom feed     : "@ + c.id.0
        + "/feeds/videos.atom?videoChannelId="@ + decimal(c.id.1 as nat) + "\n"@ + repeated('=', cols) + "\n"@
}

/// Appends `a`, then a line break.
fn push_line(s: &mut String, a: &str)
    ensures
        final(s)@ == old(s)@ + a@ + "\n"@,
{
    s.append(a);
    s.append("\n");
}

/// Appends the title of an information sheet.
fn push_title(s: &mut String, title: &str, cols: usize)
    ensures
        final(s)@ == old(s)@ + title_part(title@, cols as nat),
{
    let l = ruler('=', cols);
    push_line(s, l.as_str());
    let c = centered(title, cols);
    push_line(s, c.as_str());
    push_line(s, l.as_str());
    assert(s@ =~= old(s)@ + title_part(title@, cols as nat));
}

/// Appends the description part of an information sheet.
fn push_description(s: &mut String, desc: &Option<String>, cols: usize)
    ensures
        final(s)@ == old(s)@ + description_part(opt_str(*desc), cols as nat),
{
    match desc {
        Some(d) => {
            if d.unicode_len() > 0 {
                let l = ruler('=', cols);
                let c = centered("DESCRIPTION", cols);
                push_line(s, c.as_str());
                push_line(s, l.as_str());
                let f = fill_text(d.as_str(), cols);
                push_line(s, f.as_str());
                push_line(s, l.as_str());
                assert(s@ =~= old(s)@ + description_part(opt_str(*desc), cols as nat));
            } else {
                assert(s@ =~= old(s)@ + description_part(opt_str(*desc), cols as nat));
            }
        },
        None => {
            assert(s@ =~= old(s)@ + description_part(opt_str(*desc), cols as nat));
        },
    }
}

/// Appends a field of an information sheet: its name, its value, a line break.
fn push_field(s: &mut String, name: &str, value: &str)
    ensures
        final(s)@ == old(s)@ + name@ + value@ + "\n"@,
{
    s.append(name);
    s.append(value);
    s.append("\n");
}

/// Appends the header of the information part of a sheet.
fn push_information_header(s: &mut String, cols: usize)
    ensures
        final(s)@ == old(s)@ + information_header(cols as nat),
{
    let c = centered("INFORMATION", cols);
    push_line(s, c.as_str());
    let l = ruler('=', cols);
    push_line(s, l.as_str());
    assert(s@ =~= old(s)@ + information_header(cols as nat));
}

/// Appends the figures of a video.
fn push_figures(s: &mut String, video: &Video)
    ensures
        final(s)@ == old(s)@ + video_figures(video@),
{
    let d = pretty_duration_or_live(video.duration(), video.is_live());
    push_field(s, "duration : ", d.as_str());
    let views = u64_to_string(video.views());
    push_field(s, "views    : ", views.as_str());
    let likes = u64_to_string(video.likes());
    push_field(s, "likes    : ", likes.as_str());
    let dislikes = u64_to_string(video.dislikes());
    push_field(s, "dislikes : ", dislikes.as_str());
    let released = match video.published() {
        Some(t) => full_date(t),
        None => String::new(),
    };
    push_field(s, "released : ", released.as_str());
    assert(s@ =~= old(s)@ + video_figures(video@));
}

/// Appends who published a video, and where to watch it.
fn push_origin(s: &mut String, video: &Video)
    ensures
        final(s)@ == old(s)@ + video_origin(video@),
{
    push_field(s, "account  : ", video.account_display());
    push_field(s, "channel  : ", video.channel_display());
    push_field(s, "host     : ", video.host());
    let url = video.watch_url();
    push_field(s, "url      : ", url.as_str());
    assert(s@ =~= old(s)@ + video_origin(video@));
}

/// Appends the line of the resolution `r`, the `k`-th (from 0) of `n`.
fn push_resolution_line(s: &mut String, k: usize, n: usize, r: &Resolution, max_len: usize, dn: usize, len: usize)
    requires
        k < n,
        dn == decimal(n as nat).len(),
        len == r@.label.len(),
        len <= max_len,
        r@.size < 1125899906842624,
    ensures
        final(s)@ == old(s)@ + resolution_line(k as nat, n as nat, r@, max_len as nat),
{
    let idx = usize_to_string(k + 1);
    s.append(idx.as_str());
    let dk = display_length(k + 1);
    proof {
        lemma_decimal_len_monotonic((k + 1) as nat, n as nat);
    }
    push_repeated(s, ' ', dn - dk);
    s.append(": ");
    s.append(r.label());
    s.append(" ");
    push_repeated(s, ' ', max_len - len);
    s.append(" ");
    let size = pretty_size(*r.size());
    push_line(s, size.as_str());
    assert(s@ =~= old(s)@ + resolution_line(k as nat, n as nat, r@, max_len as nat));
}

impl Display {
    /// The table of the resolutions to choose from, on a terminal `cols` wide.
    pub fn resolutions(&self, resolutions: &Vec<Resolution>, cols: usize) -> (r: String)
        requires
            forall|i: int| 0 <= i < resolutions@.len() ==> (#[trigger] resolutions@[i])@.size < 1125899906842624,
        ensures
            r@ == resolutions_table(resolutions_view(resolutions@), cols as nat),
    {
        let ghost rs = resolutions_view(resolutions@);
        let n = resolutions.len();
        let mut lengths: Vec<usize> = Vec::new();
        let mut max_len: usize = 10;
        let mut i: usize = 0;
        while i < n
            invariant
                n == resolutions@.len(),
                rs == resolutions_view(resolutions@),
                i <= n,
                lengths@.len() == i,
                forall|j: int| 0 <= j < i ==> lengths@[j] == rs[j].label.len(),
                max_len == max_label_len(rs.take(i as int)),
            decreases n - i,
        {
            let len = resolutions[i].label().unicode_len();
            assert(rs.take(i + 1).drop_last() =~= rs.take(i as int));
            if len > max_len {
                max_len = len;
            }
            lengths.push(len);
            i += 1;
        }
        assert(rs.take(n as int) =~= rs);
        proof {
            crate::helpers::lemma_decimal_len(n as nat);
            lemma_max_label_len(rs);
        }
        let mut s = String::new();
        push_title(&mut s, "Resolution selection", cols);
        let dn = display_length(n);
        push_repeated(&mut s, ' ', dn + 2);
        s.append("Resolution");
        push_repeated(&mut s, ' ', max_len - 10 + 2);
        push_line(&mut s, "Size");
        let ghost head = s@;
        let mut k: usize = 0;
        while k < n
            invariant
                n == resolutions@.len(),
                rs == resolutions_view(resolutions@),
                k <= n,
                lengths@.len() == n,
                forall|j: int| 0 <= j < n ==> lengths@[j] == rs[j].label.len(),
                max_len == max_label_len(rs),
                dn == decimal(n as nat).len(),
                forall|j: int| 0 <= j < n ==> rs[j].label.len() <= max_len,
                forall|j: int| 0 <= j < n ==> (#[trigger] resolutions@[j])@.size < 1125899906842624,
                s@ == head + resolution_lines(rs, k as nat, max_len as nat),
            decreases n - k,
        {
            push_resolution_line(&mut s, k, n, &resolutions[k], max_len, dn, lengths[k]);
            assert(s@ =~= head + resolution_lines(rs, (k + 1) as nat, max_len as nat));
            k += 1;
        }
        s
    }

    /// The information sheet of a video, with its full description when
    /// known, on a terminal `cols` wide.
    pub fn video_info(&self, video: &Video, description: &Option<String>, cols: usize) -> (r: String)
        ensures
            r@ == video_info_text(video@, opt_str(*description), cols as nat, self.colors()),
    {
        let mut s = String::new();
        push_title(&mut s, video.name(), cols);
        let ghost p1 = s@;
        push_description(&mut s, description, cols);
        let ghost p2 = s@;
        push_information_header(&mut s, cols);
        let ghost p3 = s@;
        push_figures(&mut s, video);
        let ghost p4 = s@;
        push_origin(&mut s, video);
        let ghost p5 = s@;
        if video.nsfw() {
            let red = fg_color(TermColor::Red, self.colors);
            s.append(red.as_str());
            s.append("nsfw");
            let reset = style(TermStyle::Reset);
            push_line(&mut s, reset.as_str());
        }
        assert(s@ =~= p5 + nsfw_mark(video@.nsfw, self.colors()));
        let ghost p6 = s@;
        let l = ruler('=', cols);
        push_line(&mut s, l.as_str());
        assert(s@ =~= video_info_text(video@, opt_str(*description), cols as nat, self.colors()));
        s
    }

    /// The information sheet of a channel, on a terminal `cols` wide.
    pub fn channel_info(&self, channel: &Channel, cols: usize) -> (r: String)
        ensures
            r@ == channel_info_text(channel@, cols as nat),
    {
        let mut s = String::new();
        push_title(&mut s, channel.display_name(), cols);
        push_description(&mut s, channel.description(), cols);
        push_field(&mut s, "name          : ", channel.name());
        push_field(&mut s, "display_name  : ", channel.display_name());
        push_field(&mut s, "host          : ", channel.host());
        let followers = u64_to_string(channel.followers());
        push_field(&mut s, "followers     : ", followers.as_str());
        let created = format_date_time(&channel.created_at());
        push_field(&mut s, "created       : ", created.as_str());
        let handle = channel.handle();
        push_field(&mut s, "handle        : ", handle.as_str());
        let rss = channel.rss();
        push_field(&mut s, "rss feed      : ", rss.as_str());
        let atom = channel.atom();
        push_field(&mut s, "atom feed     : ", atom.as_str());
        let l = ruler('=', cols);
        push_line(&mut s, l.as_str());
        assert(s@ =~= channel_info_text(channel@, cols as nat));
        s
    }
}

/// A piece of a line of a list.
#[derive(Debug, Clone)]
pub enum Piece {
    /// Text that is shown.
    Text(String),
    /// The place where the next column starts.
    Align,
    /// An escape sequence, shown only with colors.
    Style(String),
}

/// The value of a [`Piece`].
pub enum PieceView {
    Text(Seq<char>),
    Align,
    Style(Seq<char>),
}

impl View for Piece {
    type V = PieceView;

    open spec fn view(&self) -> PieceView {
        match self {
            Piece::Text(t) => PieceView::Text(t@),
            Piece::Align => PieceView::Align,
            Piece::Style(s) => PieceView::Style(s@),
        }
    }
}

/// A line of a list: hidden with a reason, or shown in pieces.
#[derive(Debug, Clone)]
pub enum ListRow {
    Blocked(String),
    Shown(Vec<Piece>),
}

/// The value of a [`ListRow`].
pub enum RowView {
    Blocked(Seq<char>),
    Shown(Seq<PieceView>),
}

/// The values of pieces.
pub open spec fn pieces_view(v: Seq<Piece>) -> Seq<PieceView> {
    v.map_values(|p: Piece| p@)
}

impl View for ListRow {
    type V = RowView;

    open spec fn view(&self) -> RowView {
        match self {
            ListRow::Blocked(r) => RowView::Blocked(r@),
            ListRow::Shown(ps) => RowView::Shown(pieces_view(ps@)),
        }
    }
}

/// The values of rows.
pub open spec fn rows_view(v: Seq<ListRow>) -> Seq<RowView> {
    v.map_values(|r: ListRow| r@)
}

/// How many columns of the terminal a text takes.
pub uninterp spec fn text_width(s: Seq<char>) -> nat;

/// `UnicodeWidthStr::width` of `unicode-width`: the columns the text takes.
/// The contract names it `text_width` of the text.
#[verifier::external_body]
fn width_of(s: &str) -> (r: usize)
    ensures
        r == text_width(s@),
{
    unicode_width::UnicodeWidthStr::width(s)
}

/// The widths before each `Align` of `ps`, counted from the previous one,
/// with `acc` already taken before `ps`.
pub open spec fn align_offsets(ps: Seq<PieceView>, acc: int) -> Seq<int>
    decreases ps.len(),
{
    if ps.len() == 0 {
        Seq::empty()
    } else {
        match ps[0] {
            PieceView::Align => seq![acc] + align_offsets(ps.drop_first(), 0),
            PieceView::Text(t) => align_offsets(ps.drop_first(), acc + text_width(t)),
            PieceView::Style(_) => align_offsets(ps.drop_first(), acc),
        }
    }
}

/// The widths before each `Align` of a row; none for a hidden row.
pub open spec fn row_offsets(r: RowView) -> Seq<int> {
    match r {
        RowView::Shown(ps) => align_offsets(ps, 0),
        RowView::Blocked(_) => Seq::empty(),
    }
}

/// The width of the column `k` of a list: the widest of its rows (0 when none reaches it).
pub open spec fn column_width(rows: Seq<RowView>, k: int) -> int
    decreases rows.len(),
{
    if rows.len() == 0 {
        0
    } else {
        let m = column_width(rows.drop_last(), k);
        let o = row_offsets(rows.last());
        if 0 <= k < o.len() && o[k] > m {
            o[k]
        } else {
            m
        }
    }
}

/// The text of the pieces `ps` of a row whose widths are `offs`, the next
/// `Align` being the `k`-th, in a list of `rows`.
pub open spec fn pieces_text(ps: Seq<PieceView>, offs: Seq<int>, rows: Seq<RowView>, k: int, colors: bool) -> Seq<char>
    decreases ps.len(),
{
    if ps.len() == 0 {
        Seq::empty()
    } else {
        match ps[0] {
            PieceView::Align => repeated(' ', (column_width(rows, k) - offs[k]) as nat) + pieces_text(
                ps.drop_first(),
                offs,
                rows,
                k + 1,
                colors,
            ),
            PieceView::Style(st) => (if colors {
                st
            } else {
                Seq::empty()
            }) + pieces_text(ps.drop_first(), offs, rows, k, colors),
            PieceView::Text(t) => t + pieces_text(ps.drop_first(), offs, rows, k, colors),
        }
    }
}

/// The line of the row `i` (from 0) of a list of `rows`: its number, then
/// the reason it is hidden in red, or its pieces with the columns aligned.
pub open spec fn row_text(i: int, rows: Seq<RowView>, colors: bool) -> Seq<char> {
    decimal((i + 1) as nat) + repeated(' ', (decimal(rows.len()).len() - decimal((i + 1) as nat).len()) as nat)
        + ": "@ + match rows[i] {
        RowView::Blocked(reason) => fg_or_none(TermColor::Red, colors) + reason + fg_or_none(TermColor::Reset, colors)
            + "\n"@,
        RowView::Shown(ps) => pieces_text(ps, align_offsets(ps, 0), rows, 0, colors) + "\n"@,
    }
}

/// The lines of the first `k` rows of a list.
pub open spec fn list_text(rows: Seq<RowView>, k: nat, colors: bool) -> Seq<char>
    decreases k,
{
    if k == 0 {
        Seq::empty()
    } else {
        list_text(rows, (k - 1) as nat, colors) + row_text(k - 1, rows, colors)
    }
}

/// A bound on the widths that `n` pieces sum to.
pub open spec fn wide_bound(n: int) -> int {
    n * 18446744073709551615
}

/// The widths before each `Align` of the pieces of a row.
fn offsets_of(ps: &Vec<Piece>) -> (r: Vec<u128>)
    ensures
        r@.len() == align_offsets(pieces_view(ps@), 0).len(),
        forall|k: int| 0 <= k < r@.len() ==> r@[k] as int == align_offsets(pieces_view(ps@), 0)[k],
        forall|k: int| 0 <= k < r@.len() ==> r@[k] <= wide_bound(ps@.len() as int),
{
    let ghost pv = pieces_view(ps@);
    let mut r: Vec<u128> = Vec::new();
    let mut acc: u128 = 0;
    let mut i: usize = 0;
    let len = ps.len();
    assert(pv.skip(0) =~= pv);
    while i < ps.len()
        invariant
            pv == pieces_view(ps@),
            i <= ps@.len(),
            ps@.len() <= usize::MAX,
            acc <= wide_bound(i as int),
            forall|k: int| 0 <= k < r@.len() ==> r@[k] <= wide_bound(ps@.len() as int),
            r@.map_values(|x: u128| x as int) + align_offsets(pv.skip(i as int), acc as int) == align_offsets(pv, 0),
        decreases ps@.len() - i,
    {
        let ghost rest = pv.skip(i as int);
        assert(rest[0] == ps@[i as int]@);
        assert(rest.drop_first() =~= pv.skip(i + 1));
        let ghost before = r@.map_values(|x: u128| x as int);
        match &ps[i] {
            Piece::Align => {
                r.push(acc);
                assert(r@.map_values(|x: u128| x as int) =~= before.push(acc as int));
                assert(before.push(acc as int) + align_offsets(pv.skip(i + 1), 0) =~= before + (seq![acc as int]
                    + align_offsets(pv.skip(i + 1), 0)));
                acc = 0;
            },
            Piece::Text(t) => {
                let w = width_of(t.as_str());
                acc = acc + w as u128;
            },
            Piece::Style(_) => {},
        }
        i += 1;
    }
    proof {
        let m = r@.map_values(|x: u128| x as int);
        assert(pv.skip(ps@.len() as int) =~= Seq::<PieceView>::empty());
        assert(m + Seq::<int>::empty() =~= m);
        assert forall|k: int| 0 <= k < r@.len() implies r@[k] as int == align_offsets(pieces_view(ps@), 0)[k] by {
            assert(m[k] == r@[k] as int);
        }
    }
    r
}

/// Appends `c` written `n` times, for a count that may exceed `usize`.
fn push_repeated_wide(s: &mut String, c: char, n: u128)
    ensures
        final(s)@ == old(s)@ + repeated(c, n as nat),
{
    let mut i: u128 = 0;
    while i < n
        invariant
            i <= n,
            s@ == old(s)@ + repeated(c, i as nat),
        decreases n - i,
    {
        push_char(s, c);
        assert(old(s)@ + repeated(c, (i + 1) as nat) =~= old(s)@ + repeated(c, i as nat) + seq![c]);
        i += 1;
    }
}

/// A column is as wide as each of its rows.
pub proof fn lemma_column_width_bound(rows: Seq<RowView>, i: int, k: int)
    requires
        0 <= i < rows.len(),
        0 <= k < row_offsets(rows[i]).len(),
    ensures
        row_offsets(rows[i])[k] <= column_width(rows, k),
    decreases rows.len(),
{
    if i < rows.len() - 1 {
        assert(rows.drop_last()[i] == rows[i]);
        lemma_column_width_bound(rows.drop_last(), i, k);
    }
}

/// The widths of the columns of a list, column by column, and the widths of each of its rows.
fn column_widths(rows: &Vec<ListRow>) -> (r: (Vec<u128>, Vec<Vec<u128>>))
    ensures
        r.1@.len() == rows@.len(),
        forall|i: int| 0 <= i < rows@.len() ==> (#[trigger] r.1@[i])@.len() == row_offsets(rows@[i]@).len(),
        forall|i: int, k: int|
            0 <= i < rows@.len() && 0 <= k < r.1@[i]@.len() ==> (#[trigger] r.1@[i]@[k]) as int == row_offsets(
                rows@[i]@,
            )[k],
        forall|i: int| 0 <= i < rows@.len() ==> (#[trigger] r.1@[i])@.len() <= r.0@.len(),
        forall|k: int| 0 <= k < r.0@.len() ==> (#[trigger] r.0@[k]) as int == column_width(rows_view(rows@), k),
{
    let ghost rv = rows_view(rows@);
    let mut totals: Vec<u128> = Vec::new();
    let mut all: Vec<Vec<u128>> = Vec::new();
    let mut i: usize = 0;
    while i < rows.len()
        invariant
            rv == rows_view(rows@),
            i <= rows@.len(),
            all@.len() == i,
            forall|j: int| 0 <= j < i ==> (#[trigger] all@[j])@.len() == row_offsets(rv[j]).len(),
            forall|j: int, k: int|
                0 <= j < i && 0 <= k < all@[j]@.len() ==> (#[trigger] all@[j]@[k]) as int == row_offsets(rv[j])[k],
            forall|j: int| 0 <= j < i ==> (#[trigger] all@[j])@.len() <= totals@.len(),
            forall|k: int| 0 <= k < totals@.len() ==> (#[trigger] totals@[k]) as int == column_width(rv.take(i as int), k),
            forall|k: int| k >= totals@.len() ==> column_width(rv.take(i as int), k) == 0,
        decreases rows@.len() - i,
    {
        assert(rv[i as int] == rows@[i as int]@);
        let offs: Vec<u128> = match &rows[i] {
            ListRow::Shown(ps) => offsets_of(ps),
            ListRow::Blocked(_) => Vec::new(),
        };
        let ghost o = row_offsets(rv[i as int]);
        assert(offs@.len() == o.len());
        assert(forall|k: int| 0 <= k < offs@.len() ==> offs@[k] as int == o[k]);
        let ghost prev = rv.take(i as int);
        let ghost next = rv.take(i + 1);
        assert(next.drop_last() =~= prev);
        assert(next.last() == rv[i as int]);
        let mut k: usize = 0;
        while k < offs.len()
            invariant
                offs@.len() == o.len(),
                forall|kk: int| 0 <= kk < offs@.len() ==> offs@[kk] as int == o[kk],
                next.drop_last() == prev,
                next.last() == rv[i as int],
                next.len() > 0,
                o == row_offsets(rv[i as int]),
                k <= offs@.len(),
                k <= totals@.len(),
                forall|j: int| 0 <= j < i ==> (#[trigger] all@[j])@.len() <= totals@.len(),
                forall|kk: int| 0 <= kk < k ==> (#[trigger] totals@[kk]) as int == column_width(next, kk),
                forall|kk: int| k <= kk < totals@.len() ==> (#[trigger] totals@[kk]) as int == column_width(prev, kk),
                forall|kk: int| kk >= totals@.len() ==> column_width(prev, kk) == 0,
            decreases offs@.len() - k,
        {
            let ghost ki = k as int;
            assert(column_width(next, ki) == (if 0 <= ki < o.len() && o[ki] > column_width(prev, ki) {
                o[ki]
            } else {
                column_width(prev, ki)
            }));
            if k < totals.len() {
                if offs[k] > totals[k] {
                    totals.set(k, offs[k]);
                }
            } else {
                totals.push(offs[k]);
            }
            assert(totals@[ki] as int == column_width(next, ki));
            k += 1;
        }
        all.push(offs);
        i += 1;
        proof {
            assert forall|kk: int| kk >= totals@.len() implies column_width(rv.take(i as int), kk) == 0 by {
                assert(rv.take(i as int) == next);
                assert(column_width(next, kk) == column_width(next.drop_last(), kk));
            }
            assert forall|kk: int| 0 <= kk < totals@.len() implies (#[trigger] totals@[kk]) as int == column_width(
                rv.take(i as int),
                kk,
            ) by {
                assert(rv.take(i as int) == next);
                if kk >= o.len() {
                    assert(column_width(next, kk) == column_width(next.drop_last(), kk));
                }
            }
        }
    }
    assert(rv.take(rows@.len() as int) =~= rv);
    (totals, all)
}

/// Appends the text of the pieces of a shown row, the `i`-th of `rv`.
fn push_pieces(
    s: &mut String,
    ps: &Vec<Piece>,
    offs: &Vec<u128>,
    totals: &Vec<u128>,
    colors: bool,
    Ghost(rv): Ghost<Seq<RowView>>,
    Ghost(i): Ghost<int>,
)
    requires
        0 <= i < rv.len(),
        rv[i] == RowView::Shown(pieces_view(ps@)),
        offs@.len() == align_offsets(pieces_view(ps@), 0).len(),
        forall|k: int| 0 <= k < offs@.len() ==> offs@[k] as int == align_offsets(pieces_view(ps@), 0)[k],
        offs@.len() <= totals@.len(),
        forall|k: int| 0 <= k < totals@.len() ==> (#[trigger] totals@[k]) as int == column_width(rv, k),
    ensures
        final(s)@ == old(s)@ + pieces_text(pieces_view(ps@), align_offsets(pieces_view(ps@), 0), rv, 0, colors),
{
    let ghost pv = pieces_view(ps@);
    let ghost oi = align_offsets(pv, 0);
    let ghost target = old(s)@ + pieces_text(pv, oi, rv, 0, colors);
    let ghost mut acc: int = 0;
    let mut j: usize = 0;
    let mut k: usize = 0;
    let ol = offs.len();
    assert(pv.skip(0) =~= pv);
    assert(oi.take(0) + align_offsets(pv.skip(0), 0) =~= oi);
    while j < ps.len()
        invariant
            ol == offs@.len(),
            pv == pieces_view(ps@),
            oi == align_offsets(pv, 0),
            0 <= i < rv.len(),
            rv[i] == RowView::Shown(pv),
            offs@.len() == oi.len(),
            forall|kk: int| 0 <= kk < offs@.len() ==> offs@[kk] as int == oi[kk],
            offs@.len() <= totals@.len(),
            forall|kk: int| 0 <= kk < totals@.len() ==> (#[trigger] totals@[kk]) as int == column_width(rv, kk),
            j <= ps@.len(),
            k <= oi.len(),
            oi.take(k as int) + align_offsets(pv.skip(j as int), acc) == oi,
            s@ + pieces_text(pv.skip(j as int), oi, rv, k as int, colors) == target,
        decreases ps@.len() - j,
    {
        let ghost rest = pv.skip(j as int);
        assert(rest[0] == ps@[j as int]@);
        assert(rest.drop_first() =~= pv.skip(j + 1));
        let ghost before = s@;
        match &ps[j] {
            Piece::Align => {
                assert(align_offsets(rest, acc) == seq![acc] + align_offsets(pv.skip(j + 1), 0));
                assert(oi.take(k as int).len() == k);
                assert(k < oi.len());
                assert(oi[k as int] == acc);
                proof {
                    lemma_column_width_bound(rv, i, k as int);
                }
                let spaces = totals[k] - offs[k];
                push_repeated_wide(s, ' ', spaces);
                assert(oi.take(k + 1) =~= oi.take(k as int).push(acc));
                assert(oi.take(k + 1) + align_offsets(pv.skip(j + 1), 0) =~= oi.take(k as int) + align_offsets(
                    rest,
                    acc,
                ));
                proof {
                    acc = 0;
                }
                k += 1;
            },
            Piece::Style(st) => {
                if colors {
                    s.append(st.as_str());
                }
            },
            Piece::Text(t) => {
                s.append(t.as_str());
                proof {
                    acc = acc + text_width(t@);
                }
            },
        }
        assert(s@ + pieces_text(pv.skip(j + 1), oi, rv, k as int, colors) =~= before + pieces_text(
            rest,
            oi,
            rv,
            (if ps@[j as int] is Align {
                k - 1
            } else {
                k as int
            }),
            colors,
        ));
        j += 1;
    }
    assert(pv.skip(ps@.len() as int) =~= Seq::<PieceView>::empty());
    assert(s@ + Seq::<char>::empty() =~= s@);
}

impl Display {
    /// Appends the line of the row `row`, the `i`-th (from 0) of `rv`.
    fn push_row(
        &self,
        s: &mut String,
        i: usize,
        n: usize,
        dn: usize,
        row: &ListRow,
        offs: &Vec<u128>,
        totals: &Vec<u128>,
        Ghost(rv): Ghost<Seq<RowView>>,
    )
        requires
            i < n,
            n == rv.len(),
            dn == decimal(n as nat).len(),
            rv[i as int] == row@,
            offs@.len() == row_offsets(row@).len(),
            forall|k: int| 0 <= k < offs@.len() ==> offs@[k] as int == row_offsets(row@)[k],
            offs@.len() <= totals@.len(),
            forall|k: int| 0 <= k < totals@.len() ==> (#[trigger] totals@[k]) as int == column_width(rv, k),
        ensures
            final(s)@ == old(s)@ + row_text(i as int, rv, self.colors()),
    {
        let idx = usize_to_string(i + 1);
        s.append(idx.as_str());
        let di = display_length(i + 1);
        proof {
            lemma_decimal_len_monotonic((i + 1) as nat, n as nat);
        }
        push_repeated(s, ' ', dn - di);
        s.append(": ");
        let ghost head = s@;
        match row {
            ListRow::Blocked(reason) => {
                let red = fg_color(TermColor::Red, self.colors);
                s.append(red.as_str());
                s.append(reason.as_str());
                let reset = fg_color(TermColor::Reset, self.colors);
                s.append(reset.as_str());
                s.append("\n");
            },
            ListRow::Shown(ps) => {
                push_pieces(s, ps, offs, totals, self.colors, Ghost(rv), Ghost(i as int));
                s.append("\n");
            },
        }
        assert(s@ =~= old(s)@ + row_text(i as int, rv, self.colors()));
    }

    /// A numbered list of rows: a hidden row shows the reason, in red when
    /// colors are on; the columns of the shown rows are aligned.
    pub fn list(&self, rows: &Vec<ListRow>) -> (r: String)
        ensures
            r@ == list_text(rows_view(rows@), rows@.len() as nat, self.colors()),
    {
        let ghost rv = rows_view(rows@);
        let (totals, offsets) = column_widths(rows);
        let n = rows.len();
        proof {
            crate::helpers::lemma_decimal_len(n as nat);
        }
        let dn = display_length(n);
        let mut s = String::new();
        let mut i: usize = 0;
        while i < n
            invariant
                rv == rows_view(rows@),
                n == rows@.len(),
                i <= n,
                dn == decimal(n as nat).len(),
                offsets@.len() == n,
                forall|ii: int| 0 <= ii < n ==> (#[trigger] offsets@[ii])@.len() == row_offsets(rows@[ii]@).len(),
                forall|ii: int, k: int|
                    0 <= ii < n && 0 <= k < offsets@[ii]@.len() ==> (#[trigger] offsets@[ii]@[k]) as int
                        == row_offsets(rows@[ii]@)[k],
                forall|ii: int| 0 <= ii < n ==> (#[trigger] offsets@[ii])@.len() <= totals@.len(),
                forall|k: int| 0 <= k < totals@.len() ==> (#[trigger] totals@[k]) as int == column_width(rv, k),
                s@ == list_text(rv, i as nat, self.colors()),
            decreases n - i,
        {
            assert(rv[i as int] == rows@[i as int]@);
            let ghost start = s@;
            self.push_row(&mut s, i, n, dn, &rows[i], &offsets[i], &totals, Ghost(rv));
            assert(s@ =~= list_text(rv, (i + 1) as nat, self.colors()));
            i += 1;
        }
        s
    }
}

} // verus!
