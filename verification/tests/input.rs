use peertube_viewer::input::{highlight_prompt, CompletionCandidate, Helper, Stade};
use peertube_viewer::parser::{ParseError, ParsedQuery};

#[test]
fn parse_by_stade() {
    let mut h = Helper::new(false);
    assert_eq!(h.parse(":info 3"), Err(ParseError::UnknownCommand));
    h.set_stade(Stade::Normal);
    assert_eq!(h.parse(":info 3"), Ok(ParsedQuery::Info(3)));
    h.set_limit(Some(3));
    assert_eq!(h.parse(":info 3"), Err(ParseError::ArgTooHigh));
    h.set_stade(Stade::IdOnly);
    assert_eq!(h.parse("2"), Ok(ParsedQuery::Id(2)));
    assert_eq!(h.parse("cats"), Err(ParseError::ExpectId));
}

#[test]
fn completions_and_hints() {
    let mut h = Helper::new(false);
    h.set_stade(Stade::Normal);
    let (start, cands) = h.complete(":tr", 3);
    assert_eq!(start, 0);
    assert_eq!(cands, vec![CompletionCandidate(":trending")]);
    assert_eq!(cands[0].display(), ":trending");
    assert_eq!(cands[0].replacement(), ":trending");
    assert_eq!(h.hint(":tr", 3), Some("ending".into()));
    assert_eq!(h.complete(":tr", 0).1, vec![]);
    assert_eq!(h.hint("cats", 4), None);
}

#[test]
fn highlighting() {
    let mut h = Helper::new(true);
    h.set_stade(Stade::Normal);
    assert_eq!(h.highlight("cats"), "\x1b[1mcats\x1b[m");
    assert_eq!(h.highlight(":info 2"), "\x1b[1m\x1b[38;5;2m:info\x1b[m\x1b[1m 2\x1b[m");
    assert_eq!(h.highlight(":info x"), "\x1b[1m\x1b[38;5;2m:info\x1b[38;5;1m x\x1b[m");
    assert_eq!(h.highlight(":zz"), "\x1b[1m\x1b[38;5;1m:zz\x1b[m");
    assert_eq!(h.highlight(":tr"), "\x1b[1m\x1b[38;5;3m:tr\x1b[m");
    assert_eq!(h.highlight(":info"), "\x1b[1m\x1b[38;5;6m:info\x1b[m");
    assert_eq!(h.highlight(""), "");
    assert_eq!(highlight_prompt(">> "), "\x1b[1m>> \x1b[m");
}
