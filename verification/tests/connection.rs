use kv_server::command::Command;
use kv_server::connection::{begin, step, Action, Event, Phase};
use kv_server::response::Response;
use kv_server::session::execute;
use kv_server::store::Database;

fn s(text: &str) -> String {
    text.to_string()
}

/// Drives one connection over the given lines as a server would, and hands
/// back what was written.
fn serve(db: &mut Database, lines: &[&str]) -> Vec<String> {
    let mut written = Vec::new();
    let mut input = lines.iter();
    let (mut phase, mut action) = begin();
    loop {
        let event = match action {
            Action::Read => match input.next() {
                Some(line) => Event::Line(line.to_string()),
                None => Event::EndOfInput,
            },
            Action::Execute(command) => Event::Executed(execute(db, command)),
            Action::Write(text) => {
                written.push(text);
                Event::Written
            }
            Action::Close => break,
        };
        let next = step(phase, event);
        phase = next.0;
        action = next.1;
    }
    assert_eq!(phase, Phase::Closed);
    written
}

#[test]
fn a_connection_begins_by_reading() {
    assert_eq!(begin(), (Phase::Reading, Action::Read));
}

#[test]
fn a_line_is_parsed_and_handed_to_the_store() {
    assert_eq!(
        step(Phase::Reading, Event::Line(s("INSERT a 1\n"))),
        (Phase::Processing, Action::Execute(Command::Insert { key: s("a"), value: s("1") }))
    );
    assert_eq!(
        step(Phase::Reading, Event::Line(s("nonsense\n"))),
        (Phase::Processing, Action::Execute(Command::Invalid))
    );
}

#[test]
fn a_reply_is_encoded_and_written() {
    assert_eq!(
        step(Phase::Processing, Event::Executed(Response::Found(s("1")))),
        (Phase::Writing, Action::Write(s(r#"{"status":"success","value":"1"}"#)))
    );
    assert_eq!(
        step(Phase::Processing, Event::Executed(Response::KeyNotFound)),
        (Phase::Writing, Action::Write(s(r#"{"status":"error","message":"key not found"}"#)))
    );
}

#[test]
fn a_finished_write_goes_back_to_reading() {
    assert_eq!(step(Phase::Writing, Event::Written), (Phase::Reading, Action::Read));
}

#[test]
fn the_end_of_input_and_failures_close() {
    assert_eq!(step(Phase::Reading, Event::EndOfInput), (Phase::Closed, Action::Close));
    assert_eq!(step(Phase::Reading, Event::ReadFailed), (Phase::Closed, Action::Close));
    assert_eq!(step(Phase::Writing, Event::WriteFailed), (Phase::Closed, Action::Close));
}

#[test]
fn an_event_out_of_turn_closes() {
    assert_eq!(step(Phase::Reading, Event::Written), (Phase::Closed, Action::Close));
    assert_eq!(step(Phase::Processing, Event::Line(s("GET a"))), (Phase::Closed, Action::Close));
    assert_eq!(
        step(Phase::Writing, Event::Executed(Response::Inserted)),
        (Phase::Closed, Action::Close)
    );
}

#[test]
fn a_closed_connection_stays_closed() {
    for event in [
        Event::Line(s("GET a")),
        Event::EndOfInput,
        Event::ReadFailed,
        Event::Executed(Response::Updated),
        Event::Written,
        Event::WriteFailed,
    ] {
        assert_eq!(step(Phase::Closed, event), (Phase::Closed, Action::Close));
    }
}

#[test]
fn one_connection_answers_in_order() {
    let mut db = Database::new();
    let written = serve(&mut db, &["INSERT A 1\n", "GET A\n", "UPDATE A 2\n", "GET A\n"]);
    assert_eq!(
        written,
        vec![
            s(r#"{"status":"success","action":"inserted"}"#),
            s(r#"{"status":"success","value":"1"}"#),
            s(r#"{"status":"success","action":"updated"}"#),
            s(r#"{"status":"success","value":"2"}"#),
        ]
    );
}

#[test]
fn errors_keep_the_connection_open() {
    let mut db = Database::new();
    let written = serve(&mut db, &["GET missing\n", "DELETE foo\n", "\n", "INSERT foo bar\n", "GET foo\n"]);
    assert_eq!(
        written,
        vec![
            s(r#"{"status":"error","message":"key not found"}"#),
            s(r#"{"status":"error","message":"invalid command"}"#),
            s(r#"{"status":"error","message":"invalid command"}"#),
            s(r#"{"status":"success","action":"inserted"}"#),
            s(r#"{"status":"success","value":"bar"}"#),
        ]
    );
}

#[test]
fn connections_share_one_store() {
    let mut db = Database::new();
    let first = serve(&mut db, &["INSERT left 1\n"]);
    let second = serve(&mut db, &["INSERT right 2\n"]);
    let third = serve(&mut db, &["GET left\n", "GET right\n"]);
    assert_eq!(first, vec![s(r#"{"status":"success","action":"inserted"}"#)]);
    assert_eq!(second, vec![s(r#"{"status":"success","action":"inserted"}"#)]);
    assert_eq!(
        third,
        vec![s(r#"{"status":"success","value":"1"}"#), s(r#"{"status":"success","value":"2"}"#)]
    );
}

#[test]
fn connections_may_take_turns_at_the_store() {
    let mut db = Database::new();
    let (left_phase, left_action) = step(Phase::Reading, Event::Line(s("INSERT left 1")));
    let (right_phase, right_action) = step(Phase::Reading, Event::Line(s("INSERT right 2")));
    let (right_reply, left_reply) = match (right_action, left_action) {
        (Action::Execute(right), Action::Execute(left)) => {
            (execute(&mut db, right), execute(&mut db, left))
        },
        _ => unreachable!(),
    };
    assert_eq!(step(left_phase, Event::Executed(left_reply)).0, Phase::Writing);
    assert_eq!(step(right_phase, Event::Executed(right_reply)).0, Phase::Writing);
    assert_eq!(db.get(&s("left")), Some(s("1")));
    assert_eq!(db.get(&s("right")), Some(s("2")));
}
