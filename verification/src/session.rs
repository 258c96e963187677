//! Carrying out commands, and the course of one connection.

use crate::command::{parse, parsed, Command, CommandView};
use crate::response::{encode, encoded, Response, ResponseView};
use crate::store::Database;
use vstd::prelude::*;

verus! {

/// The store after a command was carried out on `store`. Insert and update
/// both set the key, present or not; get and an invalid line change nothing.
pub open spec fn applied(store: Map<Seq<char>, Seq<char>>, cmd: CommandView) -> Map<
    Seq<char>,
    Seq<char>,
> {
    match cmd {
        CommandView::Insert { key, value } => store.insert(key, value),
        CommandView::Update { key, value } => store.insert(key, value),
        CommandView::Get { .. } => store,
        CommandView::Invalid => store,
    }
}

/// The reply to a command that is carried out on `store`.
pub open spec fn outcome(store: Map<Seq<char>, Seq<char>>, cmd: CommandView) -> ResponseView {
    match cmd {
        CommandView::Insert { .. } => ResponseView::Inserted,
        CommandView::Update { .. } => ResponseView::Updated,
        CommandView::Get { key } => if store.contains_key(key) {
            ResponseView::Found(store[key])
        } else {
            ResponseView::KeyNotFound
        },
        CommandView::Invalid => ResponseView::InvalidCommand,
    }
}

/// Carries out one command on the store and says what came of it.
pub fn execute(db: &mut Database, cmd: Command) -> (reply: Response)
    ensures
        final(db)@ == applied(old(db)@, cmd@),
        reply@ == outcome(old(db)@, cmd@),
{
    match cmd {
        Command::Insert { key, value } => {
            db.insert(key, value);
            Response::Inserted
        },
        Command::Update { key, value } => {
            db.update(key, value);
            Response::Updated
        },
        Command::Get { key } => {
            match db.get(&key) {
                Some(value) => Response::Found(value),
                None => Response::KeyNotFound,
            }
        },
        Command::Invalid => Response::InvalidCommand,
    }
}

/// Handles one line from its text to the text of the reply: reads the
/// command, carries it out on the store and writes the reply.
pub fn respond(db: &mut Database, line: &str) -> (text: String)
    ensures
        final(db)@ == applied(old(db)@, parsed(line@)),
        text@ == encoded(outcome(old(db)@, parsed(line@))),
{
    let cmd = parse(line);
    let reply = execute(db, cmd);
    encode(&reply)
}

} // verus!
