//! Reading a chat message as a command.

use vstd::prelude::*;
use crate::constants::PREFIX;
use crate::text::same_text;
use crate::tokens::{split_whitespace, texts, tokens};
use crate::validator::{endpoints, is_syllabic_text};

verus! {

/// What a message asks of the game.
#[derive(Debug, PartialEq, Eq)]
pub enum Command {
    /// The message is not addressed to the game.
    Ignored,
    /// Show the help text.
    Help,
    /// Show the words played so far.
    History,
    /// Show the most recently accepted word.
    ShowWord,
    /// Submit the word.
    Play(String),
    /// The message is addressed to the game and is no command.
    NotRecognised,
}

/// A [`Command`] over plain values.
pub enum CommandView {
    Ignored,
    Help,
    History,
    ShowWord,
    Play(Seq<char>),
    NotRecognised,
}

impl View for Command {
    type V = CommandView;

    open spec fn view(&self) -> CommandView {
        match *self {
            Command::Ignored => CommandView::Ignored,
            Command::Help => CommandView::Help,
            Command::History => CommandView::History,
            Command::ShowWord => CommandView::ShowWord,
            Command::Play(word) => CommandView::Play(word@),
            Command::NotRecognised => CommandView::NotRecognised,
        }
    }
}

/// The command that the tokens `t` of a message stand for.
///
/// A message whose first token is not the prefix is ignored. The prefix
/// alone asks for help; the prefix with one more token is that sub-command,
/// or a word to play when the token names none; anything longer is not
/// recognised.
pub open spec fn route_spec(t: Seq<Seq<char>>) -> CommandView {
    if t.len() == 0 || t[0] != PREFIX@ {
        CommandView::Ignored
    } else if t.len() == 1 {
        CommandView::Help
    } else if t.len() == 2 {
        if t[1] == "help"@ {
            CommandView::Help
        } else if t[1] == "history"@ {
            CommandView::History
        } else if t[1] == "word"@ {
            CommandView::ShowWord
        } else {
            CommandView::Play(t[1])
        }
    } else {
        CommandView::NotRecognised
    }
}

/// The command that the message `content` stands for: the one its tokens
/// stand for.
pub open spec fn parse_spec(content: Seq<char>) -> CommandView {
    route_spec(tokens(content))
}

/// Reads the tokens of a message as a command.
pub fn route(split: &Vec<&str>) -> (command: Command)
    ensures
        command@ == route_spec(texts(split@)),
{
    if split.len() == 0 || !same_text(split[0], PREFIX) {
        return Command::Ignored;
    }
    if split.len() == 1 {
        return Command::Help;
    }
    if split.len() > 2 {
        return Command::NotRecognised;
    }
    let token = split[1];
    if same_text(token, "help") {
        Command::Help
    } else if same_text(token, "history") {
        Command::History
    } else if same_text(token, "word") {
        Command::ShowWord
    } else {
        Command::Play(token.to_owned())
    }
}

/// Reads the message `content` as a command.
pub fn parse(content: &str) -> (command: Command)
    ensures
        command@ == parse_spec(content@),
{
    let split = split_whitespace(content);
    route(&split)
}

impl Command {
    /// Whether answering the command can take the sender's display name: it
    /// is shown with the most recently accepted word, and it is kept with a
    /// word that is played, which only a word of the syllabary can be.
    pub fn needs_display_name(&self) -> (needed: bool)
        ensures
            needed == match self@ {
                CommandView::Play(word) => is_syllabic_text(word),
                CommandView::ShowWord => true,
                _ => false,
            },
    {
        match self {
            Command::Play(word) => endpoints(word.as_str()).is_ok(),
            Command::ShowWord => true,
            _ => false,
        }
    }
}

} // verus!
