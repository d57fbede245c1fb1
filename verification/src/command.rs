//! The words that the session understands.

use vstd::prelude::*;
use crate::text::same_text;

verus! {

/// What the user asks for at the main prompt.
#[derive(Clone, Copy, Debug, PartialEq, Eq, Structural)]
pub enum Command {
    /// `new`: create a task.
    New,
    /// `modify`: change a task.
    Modify,
    /// `delete`: remove a task.
    Delete,
    /// `view` or `ls`: show every task.
    List,
    /// `help`: show the menu again.
    Help,
    /// `quit`: end the session.
    Quit,
    /// Anything that is not a command.
    Unknown,
}

impl Command {
    /// The command that `word` names. The word is taken as it stands: white
    /// space around it or another case make it a different word.
    pub open spec fn of(word: Seq<char>) -> Command {
        if word == "new"@ {
            Command::New
        } else if word == "modify"@ {
            Command::Modify
        } else if word == "delete"@ {
            Command::Delete
        } else if word == "view"@ || word == "ls"@ {
            Command::List
        } else if word == "help"@ {
            Command::Help
        } else if word == "quit"@ {
            Command::Quit
        } else {
            Command::Unknown
        }
    }

    /// Reads a command from a word.
    pub fn parse(word: &str) -> (command: Command)
        ensures
            command == Command::of(word@),
    {
        if same_text(word, "new") {
            Command::New
        } else if same_text(word, "modify") {
            Command::Modify
        } else if same_text(word, "delete") {
            Command::Delete
        } else if same_text(word, "view") || same_text(word, "ls") {
            Command::List
        } else if same_text(word, "help") {
            Command::Help
        } else if same_text(word, "quit") {
            Command::Quit
        } else {
            Command::Unknown
        }
    }
}

/// What the user wants to change about a task.
#[derive(Clone, Copy, Debug, PartialEq, Eq, Structural)]
pub enum Choice {
    /// `a`: the title.
    Title,
    /// `b`: the description.
    Desc,
    /// `c`: the status.
    Status,
    /// Anything that is not one of the three letters.
    Unknown,
}

impl Choice {
    /// `a` stands for the title, `b` for the description, `c` for the status.
    pub open spec fn of(word: Seq<char>) -> Choice {
        if word == "a"@ {
            Choice::Title
        } else if word == "b"@ {
            Choice::Desc
        } else if word == "c"@ {
            Choice::Status
        } else {
            Choice::Unknown
        }
    }

    /// Reads a choice from a word.
    pub fn parse(word: &str) -> (choice: Choice)
        ensures
            choice == Choice::of(word@),
    {
        if same_text(word, "a") {
            Choice::Title
        } else if same_text(word, "b") {
            Choice::Desc
        } else if same_text(word, "c") {
            Choice::Status
        } else {
            Choice::Unknown
        }
    }
}

} // verus!
