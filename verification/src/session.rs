//! The interactive surface: what a line of input asks for.

use vstd::prelude::*;
use vstd::string::*;
use crate::driver::{begin_spec, Turn, TurnView};

verus! {

/// What a line of input asks for.
#[derive(Debug, PartialEq, Eq)]
pub enum Command {
    /// End the session. Nothing is sent to the model or to a tool.
    Quit,
    /// Open a turn with this prompt.
    Ask { prompt: String },
}

/// The mathematical value of a [`Command`].
pub enum CommandView {
    Quit,
    Ask { prompt: Seq<char> },
}

impl View for Command {
    type V = CommandView;

    open spec fn view(&self) -> CommandView {
        match *self {
            Command::Quit => CommandView::Quit,
            Command::Ask { prompt } => CommandView::Ask { prompt: prompt@ },
        }
    }
}

/// The line that ends the session.
pub open spec fn quit_word() -> Seq<char> {
    "quit"@
}

/// What a line asks for: the line `quit`, and no other, ends the session;
/// every other line is the next prompt, character for character.
pub open spec fn command_of(line: Seq<char>) -> CommandView {
    if line == quit_word() {
        CommandView::Quit
    } else {
        CommandView::Ask { prompt: line }
    }
}

/// Reads a line of input, without its line terminator, as a command.
pub fn read_command(line: String) -> (command: Command)
    ensures
        command@ == command_of(line@),
{
    let word = String::from_str("quit");
    if line == word {
        Command::Quit
    } else {
        Command::Ask { prompt: line }
    }
}

/// The turn that a command opens: none for the end of the session, so that
/// nothing is asked of the model or of a tool, and else the turn that begins
/// with the prompt.
pub open spec fn turn_of(command: CommandView, limit: u64) -> Option<TurnView> {
    match command {
        CommandView::Quit => None,
        CommandView::Ask { prompt } => Some(begin_spec(prompt, limit)),
    }
}

/// The views inside an optional turn.
pub open spec fn turn_view(turn: Option<Turn>) -> Option<TurnView> {
    match turn {
        Some(t) => Some(t@),
        None => None,
    }
}

impl Command {
    /// Opens the turn that the command asks for, if it asks for one. The
    /// turn accepts at most `limit` tool calls.
    pub fn open_turn(self, limit: u64) -> (turn: Option<Turn>)
        ensures
            turn_view(turn) == turn_of(self@, limit),
    {
        match self {
            Command::Quit => None,
            Command::Ask { prompt } => Some(Turn::begin(prompt, limit)),
        }
    }
}

/// The line `quit` opens no turn: for that line no completion call and no
/// tool invocation is ever due. Every other line opens the turn that begins
/// with the line as its prompt.
pub proof fn only_quit_opens_no_turn(line: Seq<char>, limit: u64)
    ensures
        turn_of(command_of(line), limit) is None <==> line == quit_word(),
        line != quit_word() ==> turn_of(command_of(line), limit) == Some(begin_spec(line, limit)),
{
}

/// The words that the session opens with.
pub fn greeting() -> (text: String)
    ensures
        text@ == "Hi! How can I help you today? (write \"quit\" to exit)"@,
{
    String::from_str("Hi! How can I help you today? (write \"quit\" to exit)")
}

/// The words that the session ends with.
pub fn farewell() -> (text: String)
    ensures
        text@ == "Thanks for using me! I am quitting now."@,
{
    String::from_str("Thanks for using me! I am quitting now.")
}

/// The line that is printed between the turns.
pub fn separator() -> (text: String)
    ensures
        text@ == "------------"@,
{
    String::from_str("------------")
}

} // verus!
