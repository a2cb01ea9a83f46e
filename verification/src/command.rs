//! The command line of the dashboard: a verb and its arguments, separated by
//! whitespace. Verbs are matched without regard to case.

use vstd::prelude::*;
use vstd::string::*;
use crate::text::{join_spaced, join_words, texts, words_from};

verus! {

/// The words of a line as `str::split_whitespace` of the standard library gives
/// them: the maximal runs of characters that are not Unicode whitespace, in order.
pub uninterp spec fn whitespace_words(line: Seq<char>) -> Seq<Seq<char>>;

/// The text in lower case as `str::to_lowercase` of the standard library gives it.
pub uninterp spec fn lowercase_of(text: Seq<char>) -> Seq<char>;

/// `str::split_whitespace`, each word copied into a string of its own. The
/// contract only names the result.
#[verifier::external_body]
fn split_words(line: &str) -> (words: Vec<String>)
    ensures
        texts(words@) == whitespace_words(line@),
{
    line.split_whitespace().map(|word| word.to_string()).collect()
}

/// `str::to_lowercase`. The contract only names the result.
#[verifier::external_body]
fn to_lowercase(text: &str) -> (lower: String)
    ensures
        lower@ == lowercase_of(text@),
{
    text.to_lowercase()
}

/// What a command asks for.
#[derive(Debug, Clone, Copy, PartialEq, Eq, Structural)]
pub enum Verb {
    Search,
    Join,
    Leave,
    Trending,
    Help,
}

/// A command line, read.
#[derive(Debug)]
pub enum Command {
    /// The line holds no word.
    Empty,
    /// Search the markets for the keywords.
    Search(String),
    /// Join the market with this number in the list of found markets, or with this id.
    Join(String),
    /// Leave the market with this id.
    Leave(String),
    /// Load the trending markets.
    Trending,
    /// List the commands.
    Help,
    /// A verb that needs an argument came without one.
    MissingArgument(Verb),
    /// The first word, in lower case, is no verb.
    Unknown(String),
}

/// What a `Command` holds, as plain values.
pub enum CommandView {
    Empty,
    Search(Seq<char>),
    Join(Seq<char>),
    Leave(Seq<char>),
    Trending,
    Help,
    MissingArgument(Verb),
    Unknown(Seq<char>),
}

impl View for Command {
    type V = CommandView;

    open spec fn view(&self) -> CommandView {
        match self {
            Command::Empty => CommandView::Empty,
            Command::Search(keyword) => CommandView::Search(keyword@),
            Command::Join(reference) => CommandView::Join(reference@),
            Command::Leave(id) => CommandView::Leave(id@),
            Command::Trending => CommandView::Trending,
            Command::Help => CommandView::Help,
            Command::MissingArgument(verb) => CommandView::MissingArgument(*verb),
            Command::Unknown(word) => CommandView::Unknown(word@),
        }
    }
}

/// The verb that a word in lower case spells, if any. Each verb has a long form,
/// short forms, and forms with a leading slash; the long form of leaving with a
/// slash is also taken without its last `e`.
pub open spec fn verb_of(lower: Seq<char>) -> Option<Verb> {
    if lower == "/search"@ || lower == "search"@ || lower == "/s"@ || lower == "s"@ {
        Some(Verb::Search)
    } else if lower == "/joinmarket"@ || lower == "joinmarket"@ || lower == "/join"@ || lower
        == "join"@ || lower == "/j"@ || lower == "j"@ {
        Some(Verb::Join)
    } else if lower == "/leavemarket"@ || lower == "/leavemarkt"@ || lower == "leavemarket"@
        || lower == "/leave"@ || lower == "leave"@ || lower == "/l"@ {
        Some(Verb::Leave)
    } else if lower == "/trending"@ || lower == "trending"@ || lower == "/t"@ || lower == "t"@ {
        Some(Verb::Trending)
    } else if lower == "/help"@ || lower == "help"@ || lower == "/h"@ || lower == "?"@ {
        Some(Verb::Help)
    } else {
        None
    }
}

/// The command that a verb in lower case and the words after it make. A search
/// takes all words as its keywords, joined by single spaces; join and leave take
/// the first word and ignore the rest; trending and help ignore all words.
pub open spec fn classify(lower: Seq<char>, args: Seq<Seq<char>>) -> CommandView {
    match verb_of(lower) {
        Some(Verb::Search) => if args.len() == 0 {
            CommandView::MissingArgument(Verb::Search)
        } else {
            CommandView::Search(join_spaced(args))
        },
        Some(Verb::Join) => if args.len() == 0 {
            CommandView::MissingArgument(Verb::Join)
        } else {
            CommandView::Join(args[0])
        },
        Some(Verb::Leave) => if args.len() == 0 {
            CommandView::MissingArgument(Verb::Leave)
        } else {
            CommandView::Leave(args[0])
        },
        Some(Verb::Trending) => CommandView::Trending,
        Some(Verb::Help) => CommandView::Help,
        None => CommandView::Unknown(lower),
    }
}

/// The command that the words of a line make: the first word, in lower case, is
/// the verb, the others are its arguments.
pub open spec fn interpret(words: Seq<Seq<char>>) -> CommandView {
    if words.len() == 0 {
        CommandView::Empty
    } else {
        classify(lowercase_of(words[0]), words_from(words, 1))
    }
}

/// The command that a line makes.
pub open spec fn parse_line(line: Seq<char>) -> CommandView {
    interpret(whitespace_words(line))
}

/// The verb that a word in lower case spells, if any.
pub fn verb_for(lower: &str) -> (verb: Option<Verb>)
    ensures
        verb == verb_of(lower@),
{
    if lower.eq("/search") || lower.eq("search") || lower.eq("/s") || lower.eq("s") {
        Some(Verb::Search)
    } else if lower.eq("/joinmarket") || lower.eq("joinmarket") || lower.eq("/join") || lower.eq(
        "join",
    ) || lower.eq("/j") || lower.eq("j") {
        Some(Verb::Join)
    } else if lower.eq("/leavemarket") || lower.eq("/leavemarkt") || lower.eq("leavemarket")
        || lower.eq("/leave") || lower.eq("leave") || lower.eq("/l") {
        Some(Verb::Leave)
    } else if lower.eq("/trending") || lower.eq("trending") || lower.eq("/t") || lower.eq("t") {
        Some(Verb::Trending)
    } else if lower.eq("/help") || lower.eq("help") || lower.eq("/h") || lower.eq("?") {
        Some(Verb::Help)
    } else {
        None
    }
}

/// The command that `lower`, the first word of `words` in lower case, makes with
/// the words after the first.
pub fn classify_words(lower: String, words: &Vec<String>) -> (command: Command)
    ensures
        command@ == classify(lower@, words_from(texts(words@), 1)),
{
    let ghost args = words_from(texts(words@), 1);
    let has_args = words.len() > 1;
    assert(has_args == (args.len() > 0));
    match verb_for(lower.as_str()) {
        Some(Verb::Search) => if has_args {
            Command::Search(join_words(words, 1))
        } else {
            Command::MissingArgument(Verb::Search)
        },
        Some(Verb::Join) => if has_args {
            assert(args[0] == words@[1]@);
            Command::Join(words[1].clone())
        } else {
            Command::MissingArgument(Verb::Join)
        },
        Some(Verb::Leave) => if has_args {
            assert(args[0] == words@[1]@);
            Command::Leave(words[1].clone())
        } else {
            Command::MissingArgument(Verb::Leave)
        },
        Some(Verb::Trending) => Command::Trending,
        Some(Verb::Help) => Command::Help,
        None => Command::Unknown(lower),
    }
}

/// The command that the words of a line make.
pub fn interpret_words(words: &Vec<String>) -> (command: Command)
    ensures
        command@ == interpret(texts(words@)),
{
    if words.len() == 0 {
        Command::Empty
    } else {
        let lower = to_lowercase(words[0].as_str());
        assert(texts(words@)[0] == words@[0]@);
        classify_words(lower, words)
    }
}

/// Reads a command line. Whitespace before the first and after the last word
/// separates nothing and is ignored.
pub fn parse(line: &str) -> (command: Command)
    ensures
        command@ == parse_line(line@),
{
    let words = split_words(line);
    interpret_words(&words)
}

} // verus!
