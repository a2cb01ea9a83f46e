use polymarket_hft_bot::command::{classify_words, interpret_words, parse, verb_for, Command, Verb};

fn words(list: &[&str]) -> Vec<String> {
    list.iter().map(|w| w.to_string()).collect()
}

#[test]
fn verbs_and_their_short_forms() {
    for v in ["/search", "search", "/s", "s"] {
        assert_eq!(verb_for(v), Some(Verb::Search));
    }
    for v in ["/joinmarket", "joinmarket", "/join", "join", "/j", "j"] {
        assert_eq!(verb_for(v), Some(Verb::Join));
    }
    for v in ["/leavemarket", "/leavemarkt", "leavemarket", "/leave", "leave", "/l"] {
        assert_eq!(verb_for(v), Some(Verb::Leave));
    }
    for v in ["/trending", "trending", "/t", "t"] {
        assert_eq!(verb_for(v), Some(Verb::Trending));
    }
    for v in ["/help", "help", "/h", "?"] {
        assert_eq!(verb_for(v), Some(Verb::Help));
    }
    for v in ["", "l", "h", "/leavemarke", "find", "Search"] {
        assert_eq!(verb_for(v), None);
    }
}

#[test]
fn search_takes_all_words_as_keywords() {
    match parse("search  us   election 2028 ") {
        Command::Search(keyword) => assert_eq!(keyword, "us election 2028"),
        other => panic!("unexpected {:?}", other),
    }
}

#[test]
fn verbs_are_matched_without_regard_to_case() {
    assert!(matches!(parse("SEARCH btc"), Command::Search(k) if k == "btc"));
    assert!(matches!(parse("/JoinMarket 3"), Command::Join(r) if r == "3"));
    assert!(matches!(parse("Trending"), Command::Trending));
    assert!(matches!(parse("/HELP"), Command::Help));
}

#[test]
fn arguments_keep_their_case() {
    assert!(matches!(parse("leave 0xAbC"), Command::Leave(id) if id == "0xAbC"));
    assert!(matches!(parse("join  0xAbC  extra"), Command::Join(r) if r == "0xAbC"));
}

#[test]
fn whitespace_of_any_kind_separates_words() {
    assert!(matches!(parse("\t join\u{a0}42\n"), Command::Join(r) if r == "42"));
}

#[test]
fn missing_arguments_are_reported() {
    assert!(matches!(parse("search"), Command::MissingArgument(Verb::Search)));
    assert!(matches!(parse("/j"), Command::MissingArgument(Verb::Join)));
    assert!(matches!(parse("/l"), Command::MissingArgument(Verb::Leave)));
}

#[test]
fn empty_and_blank_lines_are_empty_commands() {
    assert!(matches!(parse(""), Command::Empty));
    assert!(matches!(parse("   \t "), Command::Empty));
}

#[test]
fn unknown_verbs_come_back_in_lower_case() {
    assert!(matches!(parse("FooBar x"), Command::Unknown(w) if w == "foobar"));
    assert!(matches!(parse("/LeaveMarket x"), Command::Leave(id) if id == "x"));
    assert!(matches!(parse("/market x"), Command::Unknown(w) if w == "/market"));
}

#[test]
fn trending_and_help_ignore_arguments() {
    assert!(matches!(parse("t now"), Command::Trending));
    assert!(matches!(parse("? what"), Command::Help));
}

#[test]
fn interpret_words_lowers_only_the_verb() {
    assert!(matches!(interpret_words(&words(&["S", "Big", "Game"])), Command::Search(k) if k == "Big Game"));
    assert!(matches!(interpret_words(&words(&[])), Command::Empty));
}

#[test]
fn classify_words_on_given_words() {
    let c = classify_words("join".to_string(), &words(&["JOIN", "7", "8"]));
    assert!(matches!(c, Command::Join(r) if r == "7"));
    let c = classify_words("nope".to_string(), &words(&["NOPE"]));
    assert!(matches!(c, Command::Unknown(w) if w == "nope"));
}
