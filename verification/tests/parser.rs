use peertube_viewer::parser::{
    clean_spaces, filter_high_ids, parse, parse_first, parse_id, ParseError, ParsedQuery, COMMANDS,
    COMMANDS_FIRST, NO_ARGS_CMDS_WITH_SPACE, NO_ARGS_FIRST_CMDS_WITH_SPACE,
};

fn is_sorted(input: &[&str]) -> bool {
    if input.is_empty() {
        return true;
    }
    for i in 0..input.len() - 1 {
        if input[i] > input[i + 1] {
            return false;
        }
    }
    true
}

#[test]
fn normal() {
    assert_eq!(parse(""), Err(ParseError::Empty));
    assert_eq!(parse("eazazd"), Ok(ParsedQuery::Query(String::from("eazazd"))));
    assert_eq!(parse(":channels foo"), Ok(ParsedQuery::Channels(String::from("foo"))));
    assert_eq!(parse(":channels foo"), Ok(ParsedQuery::Channels(String::from("foo"))));
    assert_eq!(parse(":trending"), Ok(ParsedQuery::Trending));
    assert_eq!(parse(":help"), Ok(ParsedQuery::Help));
    assert_eq!(parse(":h"), Ok(ParsedQuery::Help));
    assert_eq!(parse(":info eazeaz"), Err(ParseError::BadArgType));
    assert_eq!(parse(":comments eazeaz"), Err(ParseError::BadArgType));
    assert_eq!(parse(":comments 12"), Ok(ParsedQuery::Comments(12)));
    assert_eq!(parse(":info 12"), Ok(ParsedQuery::Info(12)));
    assert_eq!(parse(":browser 12"), Ok(ParsedQuery::Browser(12)));
    assert_eq!(parse(":info"), Err(ParseError::MissingArgs));
    assert_eq!(parse(":browser"), Err(ParseError::MissingArgs));
    assert_eq!(parse(":next"), Ok(ParsedQuery::Next));
    assert_eq!(parse(":previous"), Ok(ParsedQuery::Previous));
    assert_eq!(parse(":n"), Ok(ParsedQuery::Next));
    assert_eq!(parse(":p"), Ok(ParsedQuery::Previous));
    assert_eq!(parse("12"), Ok(ParsedQuery::Id(12)));
    assert_eq!(parse("110"), Ok(ParsedQuery::Id(110)));
}

#[test]
fn first() {
    assert_eq!(parse_first(""), Err(ParseError::Empty));
    assert_eq!(parse_first("eazazd"), Ok(ParsedQuery::Query(String::from("eazazd"))));
    assert_eq!(parse_first(":channels foo"), Ok(ParsedQuery::Channels(String::from("foo"))));
    assert_eq!(parse_first(":trending"), Ok(ParsedQuery::Trending));
    assert_eq!(parse_first(":help"), Ok(ParsedQuery::Help));
    assert_eq!(parse_first(":h"), Ok(ParsedQuery::Help));
    assert_eq!(parse_first(":info eazeaz"), Err(ParseError::UnknownCommand));
    assert_eq!(parse_first(":info 12"), Err(ParseError::UnknownCommand));
    assert_eq!(parse_first(":browser 12"), Err(ParseError::UnknownCommand));
    assert_eq!(parse_first(":info"), Err(ParseError::UnknownCommand));
    assert_eq!(parse_first(":browser"), Err(ParseError::UnknownCommand));
    assert_eq!(parse_first(":next"), Err(ParseError::UnknownCommand));
    assert_eq!(parse_first(":previous"), Err(ParseError::UnknownCommand));
    assert_eq!(parse_first(":n"), Err(ParseError::UnknownCommand));
    assert_eq!(parse_first(":p"), Err(ParseError::UnknownCommand));
    assert_eq!(parse_first("12"), Ok(ParsedQuery::Query(String::from("12"))));
    assert_eq!(parse_first("110"), Ok(ParsedQuery::Query(String::from("110"))));
}

#[test]
fn static_data() {
    assert!(is_sorted(&COMMANDS));
    assert!(is_sorted(&COMMANDS_FIRST));
    assert!(is_sorted(&NO_ARGS_FIRST_CMDS_WITH_SPACE));
    assert!(is_sorted(&NO_ARGS_CMDS_WITH_SPACE));
}

#[test]
fn test_spaces() {
    assert_eq!(clean_spaces(""), None);
    assert_eq!(clean_spaces(" "), None);
    assert_eq!(clean_spaces("  "), None);
    assert_eq!(clean_spaces(" aeaeaz "), Some("aeaeaz"));
    assert_eq!(clean_spaces("eaz"), Some("eaz"));
    assert_eq!(clean_spaces(" eaze"), Some("eaze"));
    assert_eq!(clean_spaces("eae "), Some("eae"));
    assert_eq!(clean_spaces("1"), Some("1"));
}

#[test]
fn id() {
    assert_eq!(parse_id(""), Err(ParseError::Empty));
    assert_eq!(parse_id(" "), Err(ParseError::ExpectId));
    assert_eq!(parse_id("  "), Err(ParseError::ExpectId));
    assert_eq!(parse_id(" aeaeaz "), Err(ParseError::ExpectId));
    assert_eq!(parse_id("1"), Ok(ParsedQuery::Id(1)));
    assert_eq!(parse_id("10"), Ok(ParsedQuery::Id(10)));
    assert_eq!(parse_id("119"), Ok(ParsedQuery::Id(119)));
}

#[test]
fn incomplete_commands_list_their_completions() {
    assert_eq!(parse(":ch"), Err(ParseError::IncompleteCommand(vec![":chandle", ":channels"])));
    assert_eq!(parse(":zz"), Err(ParseError::UnknownCommand));
}

#[test]
fn high_ids_are_refused() {
    assert_eq!(filter_high_ids(parse("12"), 10), Err(ParseError::IdTooHigh));
    assert_eq!(filter_high_ids(parse("10"), 10), Err(ParseError::IdTooHigh));
    assert_eq!(filter_high_ids(parse("10"), 11), Ok(ParsedQuery::Id(10)));
    assert_eq!(filter_high_ids(parse(":info 11"), 10), Err(ParseError::ArgTooHigh));
    assert_eq!(filter_high_ids(parse("0"), 10), Err(ParseError::IdZero));
}

#[test]
fn preload_hint() {
    assert_eq!(ParsedQuery::Info(3).should_preload(), Some(3));
    assert_eq!(ParsedQuery::Trending.should_preload(), None);
}
