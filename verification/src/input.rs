//! What the prompt makes of a line as it is typed: its meaning, completions, hint and colors.
use vstd::prelude::*;
use crate::parser::{
    ParsedQuery, ParseError, QueryView, ParseErrorView, parse, parse_first, parse_id, filter_high_ids,
    parse_spec, parse_first_spec, parse_id_spec, filter_high_ids_spec, result_view,
};
use crate::display::{TermColor, TermStyle, fg_color, style, fg_or_none, style_text};
use crate::text::{chars_of, push_range, string_of_range};
use crate::utils::{find_char, index_of_char};

verus! {

broadcast use vstd::string::group_string_axioms;

/// Which lines the prompt takes.
#[derive(Debug, Clone, Copy, PartialEq, Eq, Structural)]
pub enum Stade {
    /// The first line: a search or a command.
    First,
    /// Only a number.
    IdOnly,
    /// A number, a command or a search.
    Normal,
}

/// A completion of a command.
#[derive(Debug, Clone, Copy, PartialEq, Eq)]
pub struct CompletionCandidate(pub &'static str);

impl CompletionCandidate {
    /// The text shown.
    pub fn display(&self) -> (r: &'static str)
        ensures
            r == self.0,
    {
        self.0
    }

    /// The text that replaces the line.
    pub fn replacement(&self) -> (r: &'static str)
        ensures
            r == self.0,
    {
        self.0
    }
}

/// The state of the prompt: the largest number it takes, colors, which lines it takes.
#[derive(Debug, Clone, Copy)]
pub struct Helper {
    pub high_limit: Option<usize>,
    pub use_color: bool,
    pub stade: Stade,
}

/// What the prompt makes of `line`.
pub open spec fn helper_parse(h: Helper, line: Seq<char>) -> Result<QueryView, ParseErrorView> {
    let parsed = match h.stade {
        Stade::First => parse_first_spec(line),
        Stade::IdOnly => parse_id_spec(line),
        Stade::Normal => parse_spec(line),
    };
    match h.high_limit {
        Some(max) => filter_high_ids_spec(parsed, max),
        None => parsed,
    }
}

/// The completions of `line` with the cursor at `pos`: none at the start of the line.
pub open spec fn completions_of(h: Helper, line: Seq<char>, pos: int) -> Seq<&'static str> {
    if pos == 0 {
        Seq::empty()
    } else {
        match helper_parse(h, line) {
            Err(ParseErrorView::IncompleteCommand(cmds)) => cmds,
            _ => Seq::empty(),
        }
    }
}

/// The hint for `line` with the cursor at `pos`: the end of the first completion.
pub open spec fn hint_of(h: Helper, line: Seq<char>, pos: int) -> Option<Seq<char>> {
    let cmds = completions_of(h, line, pos);
    if cmds.len() > 0 {
        Some(cmds[0]@.skip(pos))
    } else {
        None
    }
}

/// How a line is colored, by what the prompt makes of it.
pub enum Coloring {
    /// The command in green, the rest in bold.
    GreenThenBold,
    /// Bold.
    Bold,
    /// The command in green, the rest in red.
    GreenThenRed,
    Red,
    Cyan,
    Yellow,
    /// As it is.
    Plain,
}

/// How a line is colored, by what the prompt makes of it.
pub open spec fn coloring_of(p: Result<QueryView, ParseErrorView>) -> Coloring {
    match p {
        Ok(QueryView::Query(_)) => Coloring::Bold,
        Ok(_) => Coloring::GreenThenBold,
        Err(ParseErrorView::UnexpectedArgs) => Coloring::GreenThenRed,
        Err(ParseErrorView::BadArgType) => Coloring::GreenThenRed,
        Err(ParseErrorView::ArgTooHigh) => Coloring::GreenThenRed,
        Err(ParseErrorView::MissingArgs) => Coloring::Cyan,
        Err(ParseErrorView::Empty) => Coloring::Plain,
        Err(ParseErrorView::IncompleteCommand(_)) => Coloring::Yellow,
        Err(_) => Coloring::Red,
    }
}

/// The line in bold with its first word in green, then `rest` for the rest.
pub open spec fn two_tone(line: Seq<char>, colors: bool, rest: Seq<char>) -> Seq<char> {
    let i = index_of_char(line, ' ');
    if i < line.len() {
        style_text(TermStyle::Bold) + fg_or_none(TermColor::Green, colors) + line.take(i) + rest + line.skip(i)
            + style_text(TermStyle::Reset)
    } else {
        style_text(TermStyle::Bold) + fg_or_none(TermColor::Green, colors) + line + style_text(TermStyle::Reset)
    }
}

/// The line in bold and the color `c`.
pub open spec fn one_tone(line: Seq<char>, colors: bool, c: TermColor) -> Seq<char> {
    style_text(TermStyle::Bold) + fg_or_none(c, colors) + line + style_text(TermStyle::Reset)
}

/// The colored line.
pub open spec fn highlighted(line: Seq<char>, colors: bool, p: Result<QueryView, ParseErrorView>) -> Seq<char> {
    match coloring_of(p) {
        Coloring::GreenThenBold => two_tone(line, colors, style_text(TermStyle::Reset) + style_text(TermStyle::Bold)),
        Coloring::GreenThenRed => two_tone(line, colors, fg_or_none(TermColor::Red, colors)),
        Coloring::Bold => style_text(TermStyle::Bold) + line + style_text(TermStyle::Reset),
        Coloring::Red => one_tone(line, colors, TermColor::Red),
        Coloring::Cyan => one_tone(line, colors, TermColor::Cyan),
        Coloring::Yellow => one_tone(line, colors, TermColor::Yellow),
        Coloring::Plain => line,
    }
}

impl Helper {
    /// A prompt for a first line, with no limit on numbers.
    pub fn new(use_color: bool) -> (r: Helper)
        ensures
            r == (Helper { high_limit: None, use_color, stade: Stade::First }),
    {
        Helper { high_limit: None, use_color, stade: Stade::First }
    }

    /// Sets the largest number taken.
    pub fn set_limit(&mut self, lim: Option<usize>)
        ensures
            *final(self) == (Helper { high_limit: lim, ..*old(self) }),
    {
        self.high_limit = lim;
    }

    /// Sets which lines are taken.
    pub fn set_stade(&mut self, stade: Stade)
        ensures
            *final(self) == (Helper { stade, ..*old(self) }),
    {
        self.stade = stade;
    }

    /// What the prompt makes of `line`.
    pub fn parse(&self, line: &str) -> (r: Result<ParsedQuery, ParseError>)
        ensures
            result_view(r) == helper_parse(*self, line@),
    {
        let parsed = match self.stade {
            Stade::First => parse_first(line),
            Stade::IdOnly => parse_id(line),
            Stade::Normal => parse(line),
        };
        match self.high_limit {
            Some(max) => filter_high_ids(parsed, max),
            None => parsed,
        }
    }

    /// The completions of `line` with the cursor at `pos`.
    pub fn complete(&self, line: &str, pos: usize) -> (r: (usize, Vec<CompletionCandidate>))
        ensures
            r.0 == 0,
            r.1@.map_values(|c: CompletionCandidate| c.0) == completions_of(*self, line@, pos as int),
    {
        if pos == 0 {
            let v: Vec<CompletionCandidate> = Vec::new();
            assert(v@.map_values(|c: CompletionCandidate| c.0) =~= Seq::<&'static str>::empty());
            return (0, v);
        }
        let mut out: Vec<CompletionCandidate> = Vec::new();
        if let Err(ParseError::IncompleteCommand(cmds)) = self.parse(line) {
            let mut i: usize = 0;
            while i < cmds.len()
                invariant
                    i <= cmds@.len(),
                    out@.map_values(|c: CompletionCandidate| c.0) == cmds@.take(i as int),
                decreases cmds@.len() - i,
            {
                let ghost before = out@.map_values(|c: CompletionCandidate| c.0);
                out.push(CompletionCandidate(cmds[i]));
                assert(out@.map_values(|c: CompletionCandidate| c.0) =~= before.push(cmds@[i as int]));
                assert(cmds@.take(i + 1) =~= cmds@.take(i as int).push(cmds@[i as int]));
                i += 1;
            }
            assert(cmds@.take(cmds@.len() as int) =~= cmds@);
        } else {
            assert(out@.map_values(|c: CompletionCandidate| c.0) =~= Seq::<&'static str>::empty());
        }
        (0, out)
    }

    /// The hint for `line` with the cursor at `pos`: what the first
    /// completion adds from the cursor on.
    pub fn hint(&self, line: &str, pos: usize) -> (r: Option<String>)
        requires
            completions_of(*self, line@, pos as int).len() > 0 ==> pos <= completions_of(
                *self,
                line@,
                pos as int,
            )[0]@.len(),
        ensures
            crate::error::opt_view(r) == hint_of(*self, line@, pos as int),
    {
        let (_, cmds) = self.complete(line, pos);
        if cmds.len() > 0 {
            assert(cmds@[0].0 == completions_of(*self, line@, pos as int)[0]);
            let c = chars_of(cmds[0].0);
            let h = string_of_range(&c, pos, c.len());
            assert(c@.subrange(pos as int, c@.len() as int) =~= cmds@[0].0@.skip(pos as int));
            Some(h)
        } else {
            None
        }
    }

    /// The line colored by what the prompt makes of it.
    pub fn highlight(&self, line: &str) -> (r: String)
        ensures
            r@ == highlighted(line@, self.use_color, helper_parse(*self, line@)),
    {
        let p = self.parse(line);
        match p {
            Ok(ParsedQuery::Query(_)) => {
                let mut s = style(TermStyle::Bold);
                s.append(line);
                let reset = style(TermStyle::Reset);
                s.append(reset.as_str());
                s
            },
            Ok(_) => {
                let mut rest = style(TermStyle::Reset);
                let b = style(TermStyle::Bold);
                rest.append(b.as_str());
                two_tone_text(line, self.use_color, rest.as_str())
            },
            Err(ParseError::UnexpectedArgs) | Err(ParseError::BadArgType) | Err(ParseError::ArgTooHigh) => {
                let red = fg_color(TermColor::Red, self.use_color);
                two_tone_text(line, self.use_color, red.as_str())
            },
            Err(ParseError::MissingArgs) => one_tone_text(line, self.use_color, TermColor::Cyan),
            Err(ParseError::Empty) => String::from_str(line),
            Err(ParseError::IncompleteCommand(_)) => one_tone_text(line, self.use_color, TermColor::Yellow),
            Err(_) => one_tone_text(line, self.use_color, TermColor::Red),
        }
    }
}

/// The line in bold with its first word in green, then `rest` for the rest.
fn two_tone_text(line: &str, colors: bool, rest: &str) -> (r: String)
    ensures
        r@ == two_tone(line@, colors, rest@),
{
    let v = chars_of(line);
    assert(v@.skip(0) =~= v@);
    let mut s = style(TermStyle::Bold);
    let g = fg_color(TermColor::Green, colors);
    s.append(g.as_str());
    match find_char(&v, 0, ' ') {
        Some(i) => {
            push_range(&mut s, &v, 0, i);
            s.append(rest);
            push_range(&mut s, &v, i, v.len());
            assert(v@.subrange(0, i as int) =~= line@.take(i as int));
            assert(v@.subrange(i as int, v@.len() as int) =~= line@.skip(i as int));
        },
        None => {
            s.append(line);
        },
    }
    let reset = style(TermStyle::Reset);
    s.append(reset.as_str());
    s
}

/// The line in bold and the color `c`.
fn one_tone_text(line: &str, colors: bool, c: TermColor) -> (r: String)
    ensures
        r@ == one_tone(line@, colors, c),
{
    let mut s = style(TermStyle::Bold);
    let f = fg_color(c, colors);
    s.append(f.as_str());
    s.append(line);
    let reset = style(TermStyle::Reset);
    s.append(reset.as_str());
    s
}

/// The prompt written in bold.
pub fn highlight_prompt(prompt: &str) -> (r: String)
    ensures
        r@ == style_text(TermStyle::Bold) + prompt@ + style_text(TermStyle::Reset),
{
    let mut s = style(TermStyle::Bold);
    s.append(prompt);
    let reset = style(TermStyle::Reset);
    s.append(reset.as_str());
    s
}

/// Does the prompt that waits for a number take `id`: one of the items
/// below the limit, from 1 on (none without a limit)?
pub fn id_in_limit(limit: Option<usize>, id: usize) -> (r: bool)
    ensures
        r == (limit matches Some(max) && 0 < id < max),
{
    match limit {
        Some(max) => max > id && id > 0,
        None => false,
    }
}

} // verus!
