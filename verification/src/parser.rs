//! The prompt's command language: `:info 3`, `:channels foo`, a bare id, a search...
use vstd::prelude::*;
use vstd::string::StrSliceExecFns;
use crate::text::{chars_of, starts_with_at, chars_eq, string_of_range, parse_usize_range, parse_usize_spec};

verus! {

broadcast use vstd::string::group_string_axioms;

/// Every command, sorted.
pub const COMMANDS: [&'static str; 14] = [
    ":browser",
    ":chandle",
    ":channels",
    ":comments",
    ":h",
    ":help",
    ":info",
    ":n",
    ":next",
    ":p",
    ":previous",
    ":q",
    ":quit",
    ":trending",
];

/// The commands available at the first prompt, sorted.
pub const COMMANDS_FIRST: [&'static str; 7] = [
    ":chandle",
    ":channels",
    ":h",
    ":help",
    ":q",
    ":quit",
    ":trending",
];

/// Commands without arguments, followed by a space, sorted.
pub const NO_ARGS_FIRST_CMDS_WITH_SPACE: [&'static str; 5] = [
    ":h ",
    ":help ",
    ":q ",
    ":quit ",
    ":trending ",
];

/// Commands without arguments, followed by a space, sorted.
pub const NO_ARGS_CMDS_WITH_SPACE: [&'static str; 9] = [
    ":h ",
    ":help ",
    ":n ",
    ":next ",
    ":p ",
    ":previous ",
    ":q ",
    ":quit ",
    ":trending ",
];

/// A command typed at the prompt.
#[derive(Debug, PartialEq)]
pub enum ParsedQuery {
    Channels(String),
    Chandle(String),
    Info(usize),
    Comments(usize),
    Browser(usize),
    Query(String),
    Id(usize),
    Help,
    Quit,
    Next,
    Previous,
    Trending,
}

/// The mathematical value of a [`ParsedQuery`].
pub enum QueryView {
    Channels(Seq<char>),
    Chandle(Seq<char>),
    Info(usize),
    Comments(usize),
    Browser(usize),
    Query(Seq<char>),
    Id(usize),
    Help,
    Quit,
    Next,
    Previous,
    Trending,
}

impl View for ParsedQuery {
    type V = QueryView;

    open spec fn view(&self) -> QueryView {
        match self {
            ParsedQuery::Channels(s) => QueryView::Channels(s@),
            ParsedQuery::Chandle(s) => QueryView::Chandle(s@),
            ParsedQuery::Info(i) => QueryView::Info(*i),
            ParsedQuery::Comments(i) => QueryView::Comments(*i),
            ParsedQuery::Browser(i) => QueryView::Browser(*i),
            ParsedQuery::Query(s) => QueryView::Query(s@),
            ParsedQuery::Id(i) => QueryView::Id(*i),
            ParsedQuery::Help => QueryView::Help,
            ParsedQuery::Quit => QueryView::Quit,
            ParsedQuery::Next => QueryView::Next,
            ParsedQuery::Previous => QueryView::Previous,
            ParsedQuery::Trending => QueryView::Trending,
        }
    }
}

/// Why a line typed at the prompt is not a command.
#[derive(Debug, PartialEq)]
pub enum ParseError {
    UnexpectedArgs,
    UnknownCommand,
    MissingArgs,
    ArgTooHigh,
    IdTooHigh,
    IdZero,
    BadArgType,
    ExpectId,
    Empty,
    IncompleteCommand(Vec<&'static str>),
}

/// The mathematical value of a [`ParseError`].
pub enum ParseErrorView {
    UnexpectedArgs,
    UnknownCommand,
    MissingArgs,
    ArgTooHigh,
    IdTooHigh,
    IdZero,
    BadArgType,
    ExpectId,
    Empty,
    IncompleteCommand(Seq<&'static str>),
}

impl View for ParseError {
    type V = ParseErrorView;

    open spec fn view(&self) -> ParseErrorView {
        match self {
            ParseError::UnexpectedArgs => ParseErrorView::UnexpectedArgs,
            ParseError::UnknownCommand => ParseErrorView::UnknownCommand,
            ParseError::MissingArgs => ParseErrorView::MissingArgs,
            ParseError::ArgTooHigh => ParseErrorView::ArgTooHigh,
            ParseError::IdTooHigh => ParseErrorView::IdTooHigh,
            ParseError::IdZero => ParseErrorView::IdZero,
            ParseError::BadArgType => ParseErrorView::BadArgType,
            ParseError::ExpectId => ParseErrorView::ExpectId,
            ParseError::Empty => ParseErrorView::Empty,
            ParseError::IncompleteCommand(v) => ParseErrorView::IncompleteCommand(v@),
        }
    }
}

/// The value of a parse result.
pub open spec fn result_view(r: Result<ParsedQuery, ParseError>) -> Result<
    QueryView,
    ParseErrorView,
> {
    match r {
        Ok(q) => Ok(q@),
        Err(e) => Err(e@),
    }
}

impl ParsedQuery {
    /// The id of the item that this command will need, if any.
    pub fn should_preload(&self) -> (r: Option<usize>)
        ensures
            r == match self@ {
                QueryView::Info(id) => Some(id),
                QueryView::Comments(id) => Some(id),
                QueryView::Id(id) => Some(id),
                _ => None,
            },
    {
        match *self {
            ParsedQuery::Info(id) => Some(id),
            ParsedQuery::Comments(id) => Some(id),
            ParsedQuery::Id(id) => Some(id),
            _ => None,
        }
    }
}

/// What `filter_high_ids` gives: an id argument at or above `max`, or of 0, is refused.
pub open spec fn filter_high_ids_spec(
    parsed: Result<QueryView, ParseErrorView>,
    max: usize,
) -> Result<QueryView, ParseErrorView> {
    match parsed {
        Ok(QueryView::Info(id)) => if id >= max {
            Err(ParseErrorView::ArgTooHigh)
        } else if id == 0 {
            Err(ParseErrorView::IdZero)
        } else {
            parsed
        },
        Ok(QueryView::Comments(id)) => if id >= max {
            Err(ParseErrorView::ArgTooHigh)
        } else if id == 0 {
            Err(ParseErrorView::IdZero)
        } else {
            parsed
        },
        Ok(QueryView::Browser(id)) => if id >= max {
            Err(ParseErrorView::ArgTooHigh)
        } else if id == 0 {
            Err(ParseErrorView::IdZero)
        } else {
            parsed
        },
        Ok(QueryView::Id(id)) => if id >= max {
            Err(ParseErrorView::IdTooHigh)
        } else if id == 0 {
            Err(ParseErrorView::IdZero)
        } else {
            parsed
        },
        _ => parsed,
    }
}

/// Refuses ids that do not name one of the `max - 1` items shown.
pub fn filter_high_ids(parsed: Result<ParsedQuery, ParseError>, max: usize) -> (r: Result<
    ParsedQuery,
    ParseError,
>)
    ensures
        result_view(r) == filter_high_ids_spec(result_view(parsed), max),
{
    let (id, is_id) = match &parsed {
        Ok(ParsedQuery::Info(id)) => (*id, false),
        Ok(ParsedQuery::Comments(id)) => (*id, false),
        Ok(ParsedQuery::Browser(id)) => (*id, false),
        Ok(ParsedQuery::Id(id)) => (*id, true),
        _ => {
            return parsed;
        },
    };
    if id >= max {
        if is_id {
            Err(ParseError::IdTooHigh)
        } else {
            Err(ParseError::ArgTooHigh)
        }
    } else if id == 0 {
        Err(ParseError::IdZero)
    } else {
        parsed
    }
}

/// `s` without its leading spaces.
pub open spec fn trim_start_spaces(s: Seq<char>) -> Seq<char>
    decreases s.len(),
{
    if s.len() > 0 && s[0] == ' ' {
        trim_start_spaces(s.drop_first())
    } else {
        s
    }
}

/// `s` without its trailing spaces.
pub open spec fn trim_end_spaces(s: Seq<char>) -> Seq<char>
    decreases s.len(),
{
    if s.len() > 0 && s.last() == ' ' {
        trim_end_spaces(s.drop_last())
    } else {
        s
    }
}

/// `s` without leading and trailing spaces, or `None` when nothing is left.
pub open spec fn clean_spaces_spec(s: Seq<char>) -> Option<Seq<char>> {
    let t = trim_end_spaces(trim_start_spaces(s));
    if t.len() > 0 {
        Some(t)
    } else {
        None
    }
}

/// The bounds of `v[from..]` once its spaces at both ends are dropped.
fn trim_range(v: &Vec<char>, from: usize) -> (r: Option<(usize, usize)>)
    requires
        from <= v@.len(),
    ensures
        match r {
            Some((a, b)) => from <= a < b <= v@.len() && clean_spaces_spec(v@.skip(from as int))
                == Some(v@.subrange(a as int, b as int)),
            None => clean_spaces_spec(v@.skip(from as int)) is None,
        },
{
    let mut a: usize = from;
    while a < v.len() && v[a] == ' '
        invariant
            from <= a <= v@.len(),
            trim_start_spaces(v@.skip(from as int)) == trim_start_spaces(v@.skip(a as int)),
        decreases v@.len() - a,
    {
        assert(v@.skip(a as int).drop_first() =~= v@.skip(a + 1));
        a += 1;
    }
    assert(trim_start_spaces(v@.skip(a as int)) == v@.skip(a as int));
    assert(v@.skip(a as int) =~= v@.subrange(a as int, v@.len() as int));
    let mut b: usize = v.len();
    while b > a && v[b - 1] == ' '
        invariant
            a <= b <= v@.len(),
            trim_end_spaces(v@.subrange(a as int, v@.len() as int)) == trim_end_spaces(
                v@.subrange(a as int, b as int),
            ),
        decreases b - a,
    {
        assert(v@.subrange(a as int, b as int).drop_last() =~= v@.subrange(a as int, b - 1));
        b -= 1;
    }
    assert(trim_end_spaces(v@.subrange(a as int, b as int)) == v@.subrange(a as int, b as int));
    if a < b {
        Some((a, b))
    } else {
        None
    }
}

/// Drops the spaces at both ends of `input`; `None` when nothing is left.
pub fn clean_spaces(input: &str) -> (r: Option<&str>)
    ensures
        match r {
            Some(t) => clean_spaces_spec(input@) == Some(t@),
            None => clean_spaces_spec(input@) is None,
        },
{
    let v = chars_of(input);
    assert(v@.skip(0) =~= v@);
    match trim_range(&v, 0) {
        Some((a, b)) => Some(input.substring_char(a, b)),
        None => None,
    }
}

/// `s` is the command `bare`, or begins with `with_space`.
pub open spec fn cmd_form(s: Seq<char>, with_space: Seq<char>, bare: Seq<char>) -> bool {
    with_space.is_prefix_of(s) || s == bare
}

/// The text argument of a command of `n` characters.
pub open spec fn text_arg(s: Seq<char>, n: int) -> Option<Seq<char>> {
    clean_spaces_spec(s.skip(n))
}

/// The id argument of a command of `n` characters.
pub open spec fn id_arg(s: Seq<char>, n: int) -> Result<usize, ParseErrorView> {
    match clean_spaces_spec(s.skip(n)) {
        None => Err(ParseErrorView::MissingArgs),
        Some(t) => match parse_usize_spec(t) {
            Some(k) => Ok(k),
            None => Err(ParseErrorView::BadArgType),
        },
    }
}

/// Some command of `cmds` is a prefix of `s`.
pub open spec fn starts_any(s: Seq<char>, cmds: Seq<&'static str>) -> bool {
    exists|k: int| 0 <= k < cmds.len() && (#[trigger] cmds[k])@.is_prefix_of(s)
}

/// The commands of `cmds` that `s` is a prefix of, in order.
pub open spec fn completions(s: Seq<char>, cmds: Seq<&'static str>) -> Seq<&'static str> {
    cmds.filter(|c: &'static str| s.is_prefix_of(c@))
}

/// An incomplete command when `s` begins some command of `cmds`, an unknown one else.
pub open spec fn unknown_or_incomplete(s: Seq<char>, cmds: Seq<&'static str>) -> ParseErrorView {
    let starts = completions(s, cmds);
    if starts.len() > 0 {
        ParseErrorView::IncompleteCommand(starts)
    } else {
        ParseErrorView::UnknownCommand
    }
}

/// Wraps a text argument into a command.
pub open spec fn with_text(
    arg: Option<Seq<char>>,
    f: spec_fn(Seq<char>) -> QueryView,
) -> Result<QueryView, ParseErrorView> {
    match arg {
        Some(t) => Ok(f(t)),
        None => Err(ParseErrorView::MissingArgs),
    }
}

/// Wraps an id argument into a command.
pub open spec fn with_id(arg: Result<usize, ParseErrorView>, f: spec_fn(usize) -> QueryView) -> Result<
    QueryView,
    ParseErrorView,
> {
    match arg {
        Ok(k) => Ok(f(k)),
        Err(e) => Err(e),
    }
}

/// What `parse` gives for a line typed at the prompt.
pub open spec fn parse_spec(s: Seq<char>) -> Result<QueryView, ParseErrorView> {
    if s.len() == 0 {
        Err(ParseErrorView::Empty)
    } else if parse_usize_spec(s) is Some {
        Ok(QueryView::Id(parse_usize_spec(s)->0))
    } else if s[0] != ':' {
        Ok(QueryView::Query(s))
    } else if cmd_form(s, ":chandle "@, ":chandle"@) {
        with_text(text_arg(s, 8), |t: Seq<char>| QueryView::Chandle(t))
    } else if cmd_form(s, ":channels "@, ":channels"@) {
        with_text(text_arg(s, 9), |t: Seq<char>| QueryView::Channels(t))
    } else if cmd_form(s, ":comments "@, ":comments"@) {
        with_id(id_arg(s, 9), |k: usize| QueryView::Comments(k))
    } else if cmd_form(s, ":browser "@, ":browser"@) {
        with_id(id_arg(s, 8), |k: usize| QueryView::Browser(k))
    } else if cmd_form(s, ":info "@, ":info"@) {
        with_id(id_arg(s, 5), |k: usize| QueryView::Info(k))
    } else if s == ":trending"@ {
        Ok(QueryView::Trending)
    } else if s == ":h"@ || s == ":help"@ {
        Ok(QueryView::Help)
    } else if s == ":q"@ || s == ":quit"@ {
        Ok(QueryView::Quit)
    } else if s == ":p"@ || s == ":previous"@ {
        Ok(QueryView::Previous)
    } else if s == ":n"@ || s == ":next"@ {
        Ok(QueryView::Next)
    } else if starts_any(s, NO_ARGS_FIRST_CMDS_WITH_SPACE@) {
        Err(ParseErrorView::UnexpectedArgs)
    } else {
        Err(unknown_or_incomplete(s, COMMANDS@))
    }
}

/// What `parse_first` gives for the first line typed at the prompt.
pub open spec fn parse_first_spec(s: Seq<char>) -> Result<QueryView, ParseErrorView> {
    if s.len() == 0 {
        Err(ParseErrorView::Empty)
    } else if s[0] != ':' {
        Ok(QueryView::Query(s))
    } else if cmd_form(s, ":chandle "@, ":chandle"@) {
        with_text(text_arg(s, 8), |t: Seq<char>| QueryView::Chandle(t))
    } else if cmd_form(s, ":channels "@, ":channels"@) {
        with_text(text_arg(s, 9), |t: Seq<char>| QueryView::Channels(t))
    } else if s == ":trending"@ {
        Ok(QueryView::Trending)
    } else if s == ":h"@ || s == ":help"@ {
        Ok(QueryView::Help)
    } else if s == ":q"@ || s == ":quit"@ {
        Ok(QueryView::Quit)
    } else if starts_any(s, NO_ARGS_CMDS_WITH_SPACE@) {
        Err(ParseErrorView::UnexpectedArgs)
    } else {
        Err(unknown_or_incomplete(s, COMMANDS_FIRST@))
    }
}

/// What `parse_id` gives: an id, or nothing else.
pub open spec fn parse_id_spec(s: Seq<char>) -> Result<QueryView, ParseErrorView> {
    if s.len() == 0 {
        Err(ParseErrorView::Empty)
    } else if parse_usize_spec(s) is Some {
        Ok(QueryView::Id(parse_usize_spec(s)->0))
    } else {
        Err(ParseErrorView::ExpectId)
    }
}

/// Does `v` begin with `p`?
fn has_prefix(v: &Vec<char>, p: &str) -> (r: bool)
    ensures
        r == p@.is_prefix_of(v@),
{
    let q = chars_of(p);
    assert(v@.skip(0) =~= v@);
    starts_with_at(v, 0, &q)
}

/// Is `v` exactly `p`?
fn is_exactly(v: &Vec<char>, p: &str) -> (r: bool)
    ensures
        r == (v@ == p@),
{
    let q = chars_of(p);
    chars_eq(v, &q)
}

/// The text argument found after the first `n` characters.
fn text_arg_exec(v: &Vec<char>, n: usize) -> (r: Option<String>)
    requires
        n <= v@.len(),
    ensures
        match r {
            Some(t) => text_arg(v@, n as int) == Some(t@),
            None => text_arg(v@, n as int) is None,
        },
{
    match trim_range(v, n) {
        Some((a, b)) => Some(string_of_range(v, a, b)),
        None => None,
    }
}

/// The id argument found after the first `n` characters.
fn id_arg_exec(v: &Vec<char>, n: usize) -> (r: Result<usize, ParseError>)
    requires
        n <= v@.len(),
    ensures
        match r {
            Ok(k) => id_arg(v@, n as int) == Ok::<usize, ParseErrorView>(k),
            Err(e) => id_arg(v@, n as int) == Err::<usize, ParseErrorView>(e@),
        },
{
    match trim_range(v, n) {
        Some((a, b)) => match parse_usize_range(v, a, b) {
            Some(k) => Ok(k),
            None => Err(ParseError::BadArgType),
        },
        None => Err(ParseError::MissingArgs),
    }
}

/// Does some command of `cmds` begin `v`?
fn starts_any_exec(v: &Vec<char>, cmds: &[&'static str]) -> (r: bool)
    ensures
        r == starts_any(v@, cmds@),
{
    let mut k: usize = 0;
    while k < cmds.len()
        invariant
            k <= cmds@.len(),
            forall|j: int| 0 <= j < k ==> !(#[trigger] cmds@[j])@.is_prefix_of(v@),
        decreases cmds@.len() - k,
    {
        if has_prefix(v, cmds[k]) {
            assert((cmds@[k as int])@.is_prefix_of(v@));
            return true;
        }
        k += 1;
    }
    false
}

/// The commands of `cmds` that `v` begins, in order.
fn completions_exec(v: &Vec<char>, cmds: &[&'static str]) -> (r: Vec<&'static str>)
    ensures
        r@ == completions(v@, cmds@),
{
    let mut res: Vec<&'static str> = Vec::new();
    let mut k: usize = 0;
    let ghost pred = |c: &'static str| v@.is_prefix_of(c@);
    while k < cmds.len()
        invariant
            k <= cmds@.len(),
            pred == (|c: &'static str| v@.is_prefix_of(c@)),
            res@ == cmds@.take(k as int).filter(pred),
        decreases cmds@.len() - k,
    {
        let c = chars_of(cmds[k]);
        let hit = starts_with_at(&c, 0, v);
        assert(c@.skip(0) =~= c@);
        proof {
            reveal(Seq::filter);
            assert(cmds@.take(k + 1).drop_last() =~= cmds@.take(k as int));
            assert(cmds@.take(k + 1).last() == cmds@[k as int]);
        }
        if hit {
            res.push(cmds[k]);
        }
        k += 1;
    }
    assert(cmds@.take(cmds@.len() as int) =~= cmds@);
    res
}

/// The error for a line that begins with `:` but is no complete command of `cmds`.
fn unknown_or_incomplete_exec(v: &Vec<char>, cmds: &[&'static str]) -> (r: ParseError)
    ensures
        r@ == unknown_or_incomplete(v@, cmds@),
{
    let starts = completions_exec(v, cmds);
    if starts.len() > 0 {
        ParseError::IncompleteCommand(starts)
    } else {
        ParseError::UnknownCommand
    }
}

/// Parses a line typed at the prompt.
pub fn parse(input: &str) -> (r: Result<ParsedQuery, ParseError>)
    ensures
        result_view(r) == parse_spec(input@),
{
    let v = chars_of(input);
    if v.len() == 0 {
        return Err(ParseError::Empty);
    }
    if let Some(id) = parse_usize_range(&v, 0, v.len()) {
        assert(v@.subrange(0, v@.len() as int) =~= v@);
        return Ok(ParsedQuery::Id(id));
    }
    assert(v@.subrange(0, v@.len() as int) =~= v@);
    if v[0] != ':' {
        return Ok(ParsedQuery::Query(String::from_str(input)));
    }
    proof {
        reveal_strlit(":chandle ");
        reveal_strlit(":channels ");
        reveal_strlit(":comments ");
        reveal_strlit(":browser ");
        reveal_strlit(":info ");
        reveal_strlit(":chandle");
        reveal_strlit(":channels");
        reveal_strlit(":comments");
        reveal_strlit(":browser");
        reveal_strlit(":info");
    }
    if has_prefix(&v, ":chandle ") || is_exactly(&v, ":chandle") {
        match text_arg_exec(&v, 8) {
            Some(t) => Ok(ParsedQuery::Chandle(t)),
            None => Err(ParseError::MissingArgs),
        }
    } else if has_prefix(&v, ":channels ") || is_exactly(&v, ":channels") {
        match text_arg_exec(&v, 9) {
            Some(t) => Ok(ParsedQuery::Channels(t)),
            None => Err(ParseError::MissingArgs),
        }
    } else if has_prefix(&v, ":comments ") || is_exactly(&v, ":comments") {
        match id_arg_exec(&v, 9) {
            Ok(k) => Ok(ParsedQuery::Comments(k)),
            Err(e) => Err(e),
        }
    } else if has_prefix(&v, ":browser ") || is_exactly(&v, ":browser") {
        match id_arg_exec(&v, 8) {
            Ok(k) => Ok(ParsedQuery::Browser(k)),
            Err(e) => Err(e),
        }
    } else if has_prefix(&v, ":info ") || is_exactly(&v, ":info") {
        match id_arg_exec(&v, 5) {
            Ok(k) => Ok(ParsedQuery::Info(k)),
            Err(e) => Err(e),
        }
    } else if is_exactly(&v, ":trending") {
        Ok(ParsedQuery::Trending)
    } else if is_exactly(&v, ":h") || is_exactly(&v, ":help") {
        Ok(ParsedQuery::Help)
    } else if is_exactly(&v, ":q") || is_exactly(&v, ":quit") {
        Ok(ParsedQuery::Quit)
    } else if is_exactly(&v, ":p") || is_exactly(&v, ":previous") {
        Ok(ParsedQuery::Previous)
    } else if is_exactly(&v, ":n") || is_exactly(&v, ":next") {
        Ok(ParsedQuery::Next)
    } else if starts_any_exec(&v, NO_ARGS_FIRST_CMDS_WITH_SPACE.as_slice()) {
        Err(ParseError::UnexpectedArgs)
    } else {
        Err(unknown_or_incomplete_exec(&v, COMMANDS.as_slice()))
    }
}

/// Parses the first line typed at the prompt, where no item is listed yet.
pub fn parse_first(input: &str) -> (r: Result<ParsedQuery, ParseError>)
    ensures
        result_view(r) == parse_first_spec(input@),
{
    let v = chars_of(input);
    if v.len() == 0 {
        return Err(ParseError::Empty);
    }
    if v[0] != ':' {
        return Ok(ParsedQuery::Query(String::from_str(input)));
    }
    proof {
        reveal_strlit(":chandle ");
        reveal_strlit(":channels ");
        reveal_strlit(":chandle");
        reveal_strlit(":channels");
    }
    if has_prefix(&v, ":chandle ") || is_exactly(&v, ":chandle") {
        match text_arg_exec(&v, 8) {
            Some(t) => Ok(ParsedQuery::Chandle(t)),
            None => Err(ParseError::MissingArgs),
        }
    } else if has_prefix(&v, ":channels ") || is_exactly(&v, ":channels") {
        match text_arg_exec(&v, 9) {
            Some(t) => Ok(ParsedQuery::Channels(t)),
            None => Err(ParseError::MissingArgs),
        }
    } else if is_exactly(&v, ":trending") {
        Ok(ParsedQuery::Trending)
    } else if is_exactly(&v, ":h") || is_exactly(&v, ":help") {
        Ok(ParsedQuery::Help)
    } else if is_exactly(&v, ":q") || is_exactly(&v, ":quit") {
        Ok(ParsedQuery::Quit)
    } else if starts_any_exec(&v, NO_ARGS_CMDS_WITH_SPACE.as_slice()) {
        Err(ParseError::UnexpectedArgs)
    } else {
        Err(unknown_or_incomplete_exec(&v, COMMANDS_FIRST.as_slice()))
    }
}

/// Parses a line where only an id is expected.
pub fn parse_id(input: &str) -> (r: Result<ParsedQuery, ParseError>)
    ensures
        result_view(r) == parse_id_spec(input@),
{
    let v = chars_of(input);
    if v.len() == 0 {
        return Err(ParseError::Empty);
    }
    let r = parse_usize_range(&v, 0, v.len());
    assert(v@.subrange(0, v@.len() as int) =~= v@);
    match r {
        Some(id) => Ok(ParsedQuery::Id(id)),
        None => Err(ParseError::ExpectId),
    }
}

/// An id that the prompt takes with a limit names one of the items shown:
/// it is at least 1 and below the limit, whatever command carries it.
pub proof fn lemma_filtered_ids_in_range(parsed: Result<QueryView, ParseErrorView>, max: usize)
    ensures
        (match filter_high_ids_spec(parsed, max) {
            Ok(QueryView::Id(id)) => 1 <= id < max,
            Ok(QueryView::Info(id)) => 1 <= id < max,
            Ok(QueryView::Comments(id)) => 1 <= id < max,
            Ok(QueryView::Browser(id)) => 1 <= id < max,
            _ => true,
        }),
{
}

/// The first prompt takes no command about an item shown, nor moving
/// between pages: nothing is shown yet.
pub proof fn lemma_first_prompt_takes_no_item(s: Seq<char>)
    ensures
        !(parse_first_spec(s) matches Ok(QueryView::Id(_))),
        !(parse_first_spec(s) matches Ok(QueryView::Info(_))),
        !(parse_first_spec(s) matches Ok(QueryView::Comments(_))),
        !(parse_first_spec(s) matches Ok(QueryView::Browser(_))),
        !(parse_first_spec(s) matches Ok(QueryView::Next)),
        !(parse_first_spec(s) matches Ok(QueryView::Previous)),
{
}

/// The prompt that waits for an id takes nothing else.
pub proof fn lemma_id_prompt_takes_only_ids(s: Seq<char>)
    ensures
        parse_id_spec(s) is Ok ==> parse_id_spec(s) matches Ok(QueryView::Id(_)),
{
}


/// A line that begins with `:` is no number.
proof fn lemma_colon_not_number(s: Seq<char>)
    requires
        s.len() > 0,
        s[0] == ':',
    ensures
        parse_usize_spec(s) is None,
{
    assert(crate::text::unsigned_part(s) == s);
    assert(!crate::text::is_digit(s[0]));
}

/// A space before a text changes nothing once spaces at both ends are dropped.
proof fn lemma_clean_after_space(t: Seq<char>)
    ensures
        clean_spaces_spec(seq![' '] + t) == clean_spaces_spec(t),
{
    assert((seq![' '] + t).drop_first() =~= t);
}

/// `:chandle`, a space and a text browses the videos of the channel that the
/// text names, and `:channels`, a space and a text searches channels for the
/// text: the text without its spaces at both ends, and an error when nothing
/// is left of it. The first prompt takes both alike.
pub proof fn lemma_channel_commands(t: Seq<char>)
    ensures
        clean_spaces_spec(t) matches Some(u) ==> parse_spec(":chandle "@ + t) == Ok::<QueryView, ParseErrorView>(
            QueryView::Chandle(u),
        ) && parse_first_spec(":chandle "@ + t) == Ok::<QueryView, ParseErrorView>(QueryView::Chandle(u)),
        clean_spaces_spec(t) matches Some(u) ==> parse_spec(":channels "@ + t) == Ok::<QueryView, ParseErrorView>(
            QueryView::Channels(u),
        ) && parse_first_spec(":channels "@ + t) == Ok::<QueryView, ParseErrorView>(QueryView::Channels(u)),
        clean_spaces_spec(t) is None ==> parse_spec(":chandle "@ + t) == Err::<QueryView, ParseErrorView>(
            ParseErrorView::MissingArgs,
        ) && parse_first_spec(":chandle "@ + t) == Err::<QueryView, ParseErrorView>(ParseErrorView::MissingArgs),
        clean_spaces_spec(t) is None ==> parse_spec(":channels "@ + t) == Err::<QueryView, ParseErrorView>(
            ParseErrorView::MissingArgs,
        ) && parse_first_spec(":channels "@ + t) == Err::<QueryView, ParseErrorView>(ParseErrorView::MissingArgs),
{
    reveal_strlit(":chandle ");
    reveal_strlit(":chandle");
    reveal_strlit(":channels ");
    reveal_strlit(":channels");
    lemma_clean_after_space(t);
    let a = ":chandle "@ + t;
    let b = ":channels "@ + t;
    lemma_colon_not_number(a);
    lemma_colon_not_number(b);
    assert(a.skip(8) =~= seq![' '] + t);
    assert(b.skip(9) =~= seq![' '] + t);
    assert(":chandle "@.is_prefix_of(a)) by {
        assert(a.subrange(0, 9) =~= ":chandle "@);
    }
    assert(":channels "@.is_prefix_of(b)) by {
        assert(b.subrange(0, 10) =~= ":channels "@);
    }
    assert(b[5] == 'n');
    assert(!":chandle "@.is_prefix_of(b)) by {
        assert(":chandle "@[5] != b[5]);
    }
    assert(b != ":chandle"@) by {
        assert(b.len() != ":chandle"@.len());
    }
}

/// `:comments`, `:browser` or `:info`, a space and a number acts on the item
/// of that number: shows its comments, opens it in the browser, or shows its
/// information; with no number the argument is missing, and with another
/// text it has the wrong type.
pub proof fn lemma_id_commands(t: Seq<char>)
    ensures
        (match clean_spaces_spec(t) {
            None => {
                &&& parse_spec(":comments "@ + t) == Err::<QueryView, ParseErrorView>(ParseErrorView::MissingArgs)
                &&& parse_spec(":browser "@ + t) == Err::<QueryView, ParseErrorView>(ParseErrorView::MissingArgs)
                &&& parse_spec(":info "@ + t) == Err::<QueryView, ParseErrorView>(ParseErrorView::MissingArgs)
            },
            Some(u) => match parse_usize_spec(u) {
                Some(n) => {
                    &&& parse_spec(":comments "@ + t) == Ok::<QueryView, ParseErrorView>(QueryView::Comments(n))
                    &&& parse_spec(":browser "@ + t) == Ok::<QueryView, ParseErrorView>(QueryView::Browser(n))
                    &&& parse_spec(":info "@ + t) == Ok::<QueryView, ParseErrorView>(QueryView::Info(n))
                },
                None => {
                    &&& parse_spec(":comments "@ + t) == Err::<QueryView, ParseErrorView>(ParseErrorView::BadArgType)
                    &&& parse_spec(":browser "@ + t) == Err::<QueryView, ParseErrorView>(ParseErrorView::BadArgType)
                    &&& parse_spec(":info "@ + t) == Err::<QueryView, ParseErrorView>(ParseErrorView::BadArgType)
                },
            },
        }),
{
    reveal_strlit(":chandle ");
    reveal_strlit(":chandle");
    reveal_strlit(":channels ");
    reveal_strlit(":channels");
    reveal_strlit(":comments ");
    reveal_strlit(":comments");
    reveal_strlit(":browser ");
    reveal_strlit(":browser");
    reveal_strlit(":info ");
    reveal_strlit(":info");
    lemma_clean_after_space(t);
    let c = ":comments "@ + t;
    let b = ":browser "@ + t;
    let i = ":info "@ + t;
    lemma_colon_not_number(c);
    lemma_colon_not_number(b);
    lemma_colon_not_number(i);
    assert(c.skip(9) =~= seq![' '] + t);
    assert(b.skip(8) =~= seq![' '] + t);
    assert(i.skip(5) =~= seq![' '] + t);
    assert(":comments "@.is_prefix_of(c)) by {
        assert(c.subrange(0, 10) =~= ":comments "@);
    }
    assert(":browser "@.is_prefix_of(b)) by {
        assert(b.subrange(0, 9) =~= ":browser "@);
    }
    assert(":info "@.is_prefix_of(i)) by {
        assert(i.subrange(0, 6) =~= ":info "@);
    }
    assert(c[2] == 'o' && b[1] == 'b' && i[1] == 'i');
    assert(!":chandle "@.is_prefix_of(c) && !":channels "@.is_prefix_of(c)) by {
        assert(":chandle "@[2] != c[2]);
        assert(":channels "@[2] != c[2]);
    }
    assert(!":chandle "@.is_prefix_of(b) && !":channels "@.is_prefix_of(b) && !":comments "@.is_prefix_of(b)) by {
        assert(":chandle "@[1] != b[1]);
        assert(":channels "@[1] != b[1]);
        assert(":comments "@[1] != b[1]);
    }
    assert(!":chandle "@.is_prefix_of(i) && !":channels "@.is_prefix_of(i) && !":comments "@.is_prefix_of(i)
        && !":browser "@.is_prefix_of(i)) by {
        assert(":chandle "@[1] != i[1]);
        assert(":channels "@[1] != i[1]);
        assert(":comments "@[1] != i[1]);
        assert(":browser "@[1] != i[1]);
    }
    assert(c != ":chandle"@ && c != ":channels"@) by {
        assert(c[2] != ":chandle"@[2]);
    }
    assert(b != ":chandle"@ && b != ":channels"@ && b != ":comments"@) by {
        assert(b[1] != ":chandle"@[1]);
    }
    assert(i != ":chandle"@ && i != ":channels"@ && i != ":comments"@ && i != ":browser"@) by {
        assert(i[1] != ":chandle"@[1]);
    }
}


/// The word commands do what they name: `:trending`, `:h` or `:help`, `:q`
/// or `:quit`, `:n` or `:next`, `:p` or `:previous`; the first prompt takes
/// the first three alike. A number is the id of an item, and a line that does
/// not begin with `:` and is no number is a search for that line.
pub proof fn lemma_word_commands(n: usize, s: Seq<char>)
    ensures
        parse_spec(":trending"@) == Ok::<QueryView, ParseErrorView>(QueryView::Trending),
        parse_first_spec(":trending"@) == Ok::<QueryView, ParseErrorView>(QueryView::Trending),
        parse_spec(":h"@) == Ok::<QueryView, ParseErrorView>(QueryView::Help),
        parse_spec(":help"@) == Ok::<QueryView, ParseErrorView>(QueryView::Help),
        parse_first_spec(":h"@) == Ok::<QueryView, ParseErrorView>(QueryView::Help),
        parse_first_spec(":help"@) == Ok::<QueryView, ParseErrorView>(QueryView::Help),
        parse_spec(":q"@) == Ok::<QueryView, ParseErrorView>(QueryView::Quit),
        parse_spec(":quit"@) == Ok::<QueryView, ParseErrorView>(QueryView::Quit),
        parse_first_spec(":q"@) == Ok::<QueryView, ParseErrorView>(QueryView::Quit),
        parse_first_spec(":quit"@) == Ok::<QueryView, ParseErrorView>(QueryView::Quit),
        parse_spec(":n"@) == Ok::<QueryView, ParseErrorView>(QueryView::Next),
        parse_spec(":next"@) == Ok::<QueryView, ParseErrorView>(QueryView::Next),
        parse_spec(":p"@) == Ok::<QueryView, ParseErrorView>(QueryView::Previous),
        parse_spec(":previous"@) == Ok::<QueryView, ParseErrorView>(QueryView::Previous),
        parse_spec(crate::text::decimal(n as nat)) == Ok::<QueryView, ParseErrorView>(QueryView::Id(n)),
        parse_id_spec(crate::text::decimal(n as nat)) == Ok::<QueryView, ParseErrorView>(QueryView::Id(n)),
        s.len() > 0 && s[0] != ':' && parse_usize_spec(s) is None ==> parse_spec(s) == Ok::<QueryView, ParseErrorView>(
            QueryView::Query(s),
        ),
        s.len() > 0 && s[0] != ':' ==> parse_first_spec(s) == Ok::<QueryView, ParseErrorView>(QueryView::Query(s)),
{
    reveal_strlit(":chandle ");
    reveal_strlit(":chandle");
    reveal_strlit(":channels ");
    reveal_strlit(":channels");
    reveal_strlit(":comments ");
    reveal_strlit(":comments");
    reveal_strlit(":browser ");
    reveal_strlit(":browser");
    reveal_strlit(":info ");
    reveal_strlit(":info");
    reveal_strlit(":trending");
    reveal_strlit(":h");
    reveal_strlit(":help");
    reveal_strlit(":q");
    reveal_strlit(":quit");
    reveal_strlit(":n");
    reveal_strlit(":next");
    reveal_strlit(":p");
    reveal_strlit(":previous");
    crate::text::lemma_decimal_reads_back(n as nat);
    let w = seq![":trending"@, ":h"@, ":help"@, ":q"@, ":quit"@, ":n"@, ":next"@, ":p"@, ":previous"@];
    assert forall|k: int| 0 <= k < w.len() implies {
        &&& parse_usize_spec(#[trigger] w[k]) is None
        &&& !":chandle "@.is_prefix_of(w[k]) && w[k] != ":chandle"@
        &&& !":channels "@.is_prefix_of(w[k]) && w[k] != ":channels"@
        &&& !":comments "@.is_prefix_of(w[k]) && w[k] != ":comments"@
        &&& !":browser "@.is_prefix_of(w[k]) && w[k] != ":browser"@
        &&& !":info "@.is_prefix_of(w[k]) && w[k] != ":info"@
    } by {
        lemma_colon_not_number(w[k]);
        if w[k].len() >= 2 {
            assert(w[k][1] != 'c' && w[k][1] != 'b' && w[k][1] != 'i');
            assert(":chandle "@[1] == 'c' && ":channels "@[1] == 'c' && ":comments "@[1] == 'c');
            assert(":browser "@[1] == 'b' && ":info "@[1] == 'i');
            assert(":chandle"@[1] == 'c' && ":channels"@[1] == 'c' && ":comments"@[1] == 'c');
            assert(":browser"@[1] == 'b' && ":info"@[1] == 'i');
        }
    }
    assert(w[0] == ":trending"@ && w[1] == ":h"@ && w[2] == ":help"@ && w[3] == ":q"@ && w[4] == ":quit"@);
    assert(w[5] == ":n"@ && w[6] == ":next"@ && w[7] == ":p"@ && w[8] == ":previous"@);
    assert(":next"@ != ":help"@ && ":next"@ != ":quit"@) by {
        assert(":next"@[1] != ":help"@[1] && ":next"@[1] != ":quit"@[1]);
    }
}


/// Ids that name one of the items shown (from 1 to below `max`) pass
/// unchanged, with whatever command carries them; a bare id too high is
/// reported as such, an id argument too high as an argument too high, and 0
/// as no item; actions without an id, and errors, pass unchanged.
pub proof fn lemma_filter_ids(n: usize, max: usize, t: Seq<char>, e: ParseErrorView)
    ensures
        1 <= n < max ==> filter_high_ids_spec(Ok(QueryView::Id(n)), max) == Ok::<QueryView, ParseErrorView>(QueryView::Id(n)),
        1 <= n < max ==> filter_high_ids_spec(Ok(QueryView::Info(n)), max) == Ok::<QueryView, ParseErrorView>(QueryView::Info(n)),
        1 <= n < max ==> filter_high_ids_spec(Ok(QueryView::Comments(n)), max) == Ok::<QueryView, ParseErrorView>(
            QueryView::Comments(n),
        ),
        1 <= n < max ==> filter_high_ids_spec(Ok(QueryView::Browser(n)), max) == Ok::<QueryView, ParseErrorView>(
            QueryView::Browser(n),
        ),
        n >= max ==> filter_high_ids_spec(Ok(QueryView::Id(n)), max) == Err::<QueryView, ParseErrorView>(ParseErrorView::IdTooHigh),
        n >= max ==> filter_high_ids_spec(Ok(QueryView::Info(n)), max) == Err::<QueryView, ParseErrorView>(ParseErrorView::ArgTooHigh),
        n >= max ==> filter_high_ids_spec(Ok(QueryView::Comments(n)), max) == Err::<QueryView, ParseErrorView>(
            ParseErrorView::ArgTooHigh,
        ),
        n >= max ==> filter_high_ids_spec(Ok(QueryView::Browser(n)), max) == Err::<QueryView, ParseErrorView>(
            ParseErrorView::ArgTooHigh,
        ),
        n == 0 && max > 0 ==> filter_high_ids_spec(Ok(QueryView::Id(n)), max) == Err::<QueryView, ParseErrorView>(ParseErrorView::IdZero),
        n == 0 && max > 0 ==> filter_high_ids_spec(Ok(QueryView::Info(n)), max) == Err::<QueryView, ParseErrorView>(ParseErrorView::IdZero),
        filter_high_ids_spec(Ok(QueryView::Query(t)), max) == Ok::<QueryView, ParseErrorView>(QueryView::Query(t)),
        filter_high_ids_spec(Ok(QueryView::Chandle(t)), max) == Ok::<QueryView, ParseErrorView>(QueryView::Chandle(t)),
        filter_high_ids_spec(Ok(QueryView::Channels(t)), max) == Ok::<QueryView, ParseErrorView>(QueryView::Channels(t)),
        filter_high_ids_spec(Ok(QueryView::Next), max) == Ok::<QueryView, ParseErrorView>(QueryView::Next),
        filter_high_ids_spec(Err(e), max) == Err::<QueryView, ParseErrorView>(e),
{
}

} // verus!
