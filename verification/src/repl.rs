//! The commands of the line-based console.

use vstd::prelude::*;

verus! {

/// The line without the whitespace at its two ends, as `str::trim` of the
/// standard library gives it.
pub uninterp spec fn trimmed(line: Seq<char>) -> Seq<char>;

/// `str::trim`, copied into a string of its own. The contract only names the
/// result.
#[verifier::external_body]
fn trim(line: &str) -> (text: String)
    ensures
        text@ == trimmed(line@),
{
    line.trim().to_string()
}

/// A command of the console.
#[derive(Debug, Clone, Copy, PartialEq, Eq, Structural)]
pub enum ReplCommand {
    Help,
    CurrentState,
    LastBid,
    Balance,
    Active,
    Markets,
    Pnl,
    Pause,
    Resume,
    Panic,
    Export,
    Exit,
    Unknown,
}

/// A line of the console, read.
#[derive(Debug)]
pub enum ReplLine {
    /// The line holds nothing but whitespace and is passed over.
    Blank,
    /// The line as it goes into the history, and the command that it spells.
    Entered { text: String, command: ReplCommand },
}

/// The command that a line spells. A command is spelled exactly, in lower
/// case and with its slash; anything else is unknown.
pub open spec fn command_of(text: Seq<char>) -> ReplCommand {
    if text == "/help"@ {
        ReplCommand::Help
    } else if text == "/currentstate"@ {
        ReplCommand::CurrentState
    } else if text == "/lastbid"@ {
        ReplCommand::LastBid
    } else if text == "/balance"@ {
        ReplCommand::Balance
    } else if text == "/active"@ {
        ReplCommand::Active
    } else if text == "/markets"@ {
        ReplCommand::Markets
    } else if text == "/pnl"@ {
        ReplCommand::Pnl
    } else if text == "/pause"@ {
        ReplCommand::Pause
    } else if text == "/resume"@ {
        ReplCommand::Resume
    } else if text == "/panic"@ {
        ReplCommand::Panic
    } else if text == "/export"@ {
        ReplCommand::Export
    } else if text == "/exit"@ || text == "/quit"@ {
        ReplCommand::Exit
    } else {
        ReplCommand::Unknown
    }
}

/// The command that a line without surrounding whitespace spells.
pub fn process_command(text: &str) -> (command: ReplCommand)
    ensures
        command == command_of(text@),
{
    if text.eq("/help") {
        ReplCommand::Help
    } else if text.eq("/currentstate") {
        ReplCommand::CurrentState
    } else if text.eq("/lastbid") {
        ReplCommand::LastBid
    } else if text.eq("/balance") {
        ReplCommand::Balance
    } else if text.eq("/active") {
        ReplCommand::Active
    } else if text.eq("/markets") {
        ReplCommand::Markets
    } else if text.eq("/pnl") {
        ReplCommand::Pnl
    } else if text.eq("/pause") {
        ReplCommand::Pause
    } else if text.eq("/resume") {
        ReplCommand::Resume
    } else if text.eq("/panic") {
        ReplCommand::Panic
    } else if text.eq("/export") {
        ReplCommand::Export
    } else if text.eq("/exit") || text.eq("/quit") {
        ReplCommand::Exit
    } else {
        ReplCommand::Unknown
    }
}

/// Reads a line of the console: whitespace at its ends is dropped; a line that
/// is then empty is blank, any other is entered with the command that it
/// spells.
pub fn read_line(line: &str) -> (r: ReplLine)
    ensures
        trimmed(line@).len() == 0 ==> r is Blank,
        trimmed(line@).len() > 0 ==> (r matches ReplLine::Entered { text, command } && text@
            == trimmed(line@) && command == command_of(trimmed(line@))),
{
    let text = trim(line);
    if text.as_str().is_empty() {
        ReplLine::Blank
    } else {
        let command = process_command(text.as_str());
        ReplLine::Entered { text, command }
    }
}

} // verus!
