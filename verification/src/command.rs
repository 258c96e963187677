//! Commands, and reading one out of a line.

use crate::text::{tokenize, tokens, views};
use vstd::prelude::*;

verus! {

/// A client's request, as one line states it.
#[derive(Debug, Clone, PartialEq, Eq)]
pub enum Command {
    /// Set `key` to `value`.
    Insert { key: String, value: String },
    /// Set `key` to `value`; the key need not be present.
    Update { key: String, value: String },
    /// Ask for the value of `key`.
    Get { key: String },
    /// A line that states no command.
    Invalid,
}

/// A command over sequences of characters, as the contracts speak of it.
pub enum CommandView {
    Insert { key: Seq<char>, value: Seq<char> },
    Update { key: Seq<char>, value: Seq<char> },
    Get { key: Seq<char> },
    Invalid,
}

impl View for Command {
    type V = CommandView;

    open spec fn view(&self) -> CommandView {
        match self {
            Command::Insert { key, value } => CommandView::Insert { key: key@, value: value@ },
            Command::Update { key, value } => CommandView::Update { key: key@, value: value@ },
            Command::Get { key } => CommandView::Get { key: key@ },
            Command::Invalid => CommandView::Invalid,
        }
    }
}

/// The command that a list of words states. The keyword is the first word,
/// in capitals, and the number of words is exact: three for `INSERT` and
/// `UPDATE`, two for `GET`. Every other list states no command.
pub open spec fn command_of(words: Seq<Seq<char>>) -> CommandView {
    if words.len() == 3 && words[0] == "INSERT"@ {
        CommandView::Insert { key: words[1], value: words[2] }
    } else if words.len() == 3 && words[0] == "UPDATE"@ {
        CommandView::Update { key: words[1], value: words[2] }
    } else if words.len() == 2 && words[0] == "GET"@ {
        CommandView::Get { key: words[1] }
    } else {
        CommandView::Invalid
    }
}

/// The command that a line states: that of its words.
pub open spec fn parsed(line: Seq<char>) -> CommandView {
    command_of(tokens(line))
}

/// Reads the command out of a list of words.
pub fn command_from_words(words: &Vec<String>) -> (cmd: Command)
    ensures
        cmd@ == command_of(views(words@)),
{
    let n = words.len();
    if n == 3 {
        assert(views(words@)[0] == words@[0]@);
        assert(views(words@)[1] == words@[1]@);
        assert(views(words@)[2] == words@[2]@);
        if words[0] == "INSERT".to_owned() {
            Command::Insert { key: words[1].clone(), value: words[2].clone() }
        } else if words[0] == "UPDATE".to_owned() {
            Command::Update { key: words[1].clone(), value: words[2].clone() }
        } else {
            Command::Invalid
        }
    } else if n == 2 {
        assert(views(words@)[0] == words@[0]@);
        assert(views(words@)[1] == words@[1]@);
        if words[0] == "GET".to_owned() {
            Command::Get { key: words[1].clone() }
        } else {
            Command::Invalid
        }
    } else {
        Command::Invalid
    }
}

/// Reads the command out of one line. Spaces around and between the words
/// do not count, so the line may still end in its terminator.
pub fn parse(line: &str) -> (cmd: Command)
    ensures
        cmd@ == parsed(line@),
{
    let words = tokenize(line);
    command_from_words(&words)
}

} // verus!
