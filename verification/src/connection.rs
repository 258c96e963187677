//! The course of one connection: what to do next, given what just happened.
//!
//! A connection reads a line, has its command carried out on the store,
//! writes the reply and reads again, until the peer ends the input or the
//! transport fails. The program that owns the socket performs each action and
//! reports the event that came of it; the store is touched only while an
//! `Execute` action is carried out, never while the connection reads or
//! writes.

use crate::command::{parse, parsed, Command, CommandView};
use crate::response::{encode, encoded, Response, ResponseView};
use crate::session::outcome;
use vstd::prelude::*;

verus! {

/// Where a connection stands.
#[derive(Debug, Clone, Copy, PartialEq, Eq, Structural)]
pub enum Phase {
    /// Waiting for a line.
    Reading,
    /// A command was read and is to be carried out on the store.
    Processing,
    /// A reply is being written.
    Writing,
    /// The connection is over.
    Closed,
}

/// What happened on the connection or at the store.
#[derive(Debug, Clone, PartialEq, Eq)]
pub enum Event {
    /// A line arrived.
    Line(String),
    /// The peer ended the input.
    EndOfInput,
    /// Reading failed.
    ReadFailed,
    /// The command was carried out, with this reply.
    Executed(Response),
    /// The reply was written.
    Written,
    /// Writing failed.
    WriteFailed,
}

/// What the owner of the connection is to do next.
#[derive(Debug, Clone, PartialEq, Eq)]
pub enum Action {
    /// Read the next line.
    Read,
    /// Carry this command out on the store.
    Execute(Command),
    /// Write this text, with nothing after it.
    Write(String),
    /// Give the connection up.
    Close,
}

/// An event over sequences of characters.
pub enum EventView {
    Line(Seq<char>),
    EndOfInput,
    ReadFailed,
    Executed(ResponseView),
    Written,
    WriteFailed,
}

/// An action over sequences of characters.
pub enum ActionView {
    Read,
    Execute(CommandView),
    Write(Seq<char>),
    Close,
}

impl View for Event {
    type V = EventView;

    open spec fn view(&self) -> EventView {
        match self {
            Event::Line(line) => EventView::Line(line@),
            Event::EndOfInput => EventView::EndOfInput,
            Event::ReadFailed => EventView::ReadFailed,
            Event::Executed(reply) => EventView::Executed(reply@),
            Event::Written => EventView::Written,
            Event::WriteFailed => EventView::WriteFailed,
        }
    }
}

impl View for Action {
    type V = ActionView;

    open spec fn view(&self) -> ActionView {
        match self {
            Action::Read => ActionView::Read,
            Action::Execute(cmd) => ActionView::Execute(cmd@),
            Action::Write(text) => ActionView::Write(text@),
            Action::Close => ActionView::Close,
        }
    }
}

/// The phase that follows `phase` on `event`. A line moves a reading
/// connection on to processing, a reply moves a processing one on to writing,
/// and a finished write moves a writing one back to reading. The end of the
/// input and every failure close the connection, and so does an event that
/// the phase does not wait for. A closed connection stays closed.
pub open spec fn next_phase(phase: Phase, event: EventView) -> Phase {
    match (phase, event) {
        (Phase::Reading, EventView::Line(_)) => Phase::Processing,
        (Phase::Processing, EventView::Executed(_)) => Phase::Writing,
        (Phase::Writing, EventView::Written) => Phase::Reading,
        _ => Phase::Closed,
    }
}

/// The action that `event` calls for in `phase`: carry out the command that
/// the line states, write the text of the reply, read again, or close.
pub open spec fn next_action(phase: Phase, event: EventView) -> ActionView {
    match (phase, event) {
        (Phase::Reading, EventView::Line(line)) => ActionView::Execute(parsed(line)),
        (Phase::Processing, EventView::Executed(reply)) => ActionView::Write(encoded(reply)),
        (Phase::Writing, EventView::Written) => ActionView::Read,
        _ => ActionView::Close,
    }
}

/// The phase in which a connection begins; its first action is `Read`.
pub fn begin() -> (start: (Phase, Action))
    ensures
        start.0 == Phase::Reading,
        start.1@ == ActionView::Read,
{
    (Phase::Reading, Action::Read)
}

/// Moves a connection on by one event.
pub fn step(phase: Phase, event: Event) -> (next: (Phase, Action))
    ensures
        next.0 == next_phase(phase, event@),
        next.1@ == next_action(phase, event@),
{
    match phase {
        Phase::Reading => match event {
            Event::Line(line) => (Phase::Processing, Action::Execute(parse(line.as_str()))),
            _ => (Phase::Closed, Action::Close),
        },
        Phase::Processing => match event {
            Event::Executed(reply) => (Phase::Writing, Action::Write(encode(&reply))),
            _ => (Phase::Closed, Action::Close),
        },
        Phase::Writing => match event {
            Event::Written => (Phase::Reading, Action::Read),
            _ => (Phase::Closed, Action::Close),
        },
        Phase::Closed => (Phase::Closed, Action::Close),
    }
}

/// One round of a connection that reads `line` while the store holds
/// `store`, and meets no failure, writes the reply to the command of that
/// line and is back at reading.
pub proof fn law_round_writes_the_reply(store: Map<Seq<char>, Seq<char>>, line: Seq<char>)
    ensures
        next_action(Phase::Reading, EventView::Line(line)) == ActionView::Execute(parsed(line)),
        next_action(
            next_phase(Phase::Reading, EventView::Line(line)),
            EventView::Executed(outcome(store, parsed(line))),
        ) == ActionView::Write(encoded(outcome(store, parsed(line)))),
        next_phase(
            next_phase(
                next_phase(Phase::Reading, EventView::Line(line)),
                EventView::Executed(outcome(store, parsed(line))),
            ),
            EventView::Written,
        ) == Phase::Reading,
{
}

/// The end of the input, a failed read and a failed write close the
/// connection, and nothing reopens a closed one.
pub proof fn law_closing(phase: Phase, event: EventView)
    ensures
        event is EndOfInput || event is ReadFailed || event is WriteFailed ==> next_phase(
            phase,
            event,
        ) == Phase::Closed && next_action(phase, event) == ActionView::Close,
        phase == Phase::Closed ==> next_phase(phase, event) == Phase::Closed && next_action(
            phase,
            event,
        ) == ActionView::Close,
{
}

} // verus!
