use kv_server::command::{parse, Command};
use kv_server::response::{encode, Response};
use kv_server::session::{execute, respond};
use kv_server::store::Database;
use kv_server::text::{is_space_char, tokenize};

fn s(text: &str) -> String {
    text.to_string()
}

#[test]
fn transcript_is_literal() {
    let mut db = Database::new();
    assert_eq!(respond(&mut db, "INSERT foo bar\n"), r#"{"status":"success","action":"inserted"}"#);
    assert_eq!(respond(&mut db, "GET foo\n"), r#"{"status":"success","value":"bar"}"#);
    assert_eq!(respond(&mut db, "UPDATE foo baz\n"), r#"{"status":"success","action":"updated"}"#);
    assert_eq!(respond(&mut db, "GET foo\n"), r#"{"status":"success","value":"baz"}"#);
    assert_eq!(respond(&mut db, "GET missing\n"), r#"{"status":"error","message":"key not found"}"#);
    assert_eq!(respond(&mut db, "DELETE foo\n"), r#"{"status":"error","message":"invalid command"}"#);
}

#[test]
fn replies_keep_the_order_of_the_lines() {
    let mut db = Database::new();
    let lines = ["INSERT A 1", "GET A", "UPDATE A 2", "GET A"];
    let mut replies: Vec<String> = Vec::new();
    for line in lines {
        replies.push(respond(&mut db, line));
    }
    assert_eq!(
        replies,
        vec![
            s(r#"{"status":"success","action":"inserted"}"#),
            s(r#"{"status":"success","value":"1"}"#),
            s(r#"{"status":"success","action":"updated"}"#),
            s(r#"{"status":"success","value":"2"}"#),
        ]
    );
}

#[test]
fn insert_then_get_returns_the_value() {
    let mut db = Database::new();
    db.insert(s("k"), s("v"));
    assert_eq!(db.get(&s("k")), Some(s("v")));
    db.insert(s("other"), s("w"));
    assert_eq!(db.get(&s("k")), Some(s("v")));
    assert_eq!(db.get(&s("other")), Some(s("w")));
}

#[test]
fn update_overwrites_an_insert() {
    let mut db = Database::new();
    db.insert(s("k"), s("v1"));
    db.update(s("k"), s("v2"));
    assert_eq!(db.get(&s("k")), Some(s("v2")));
}

#[test]
fn update_creates_an_absent_key() {
    let mut db = Database::new();
    db.update(s("fresh"), s("v"));
    assert_eq!(db.get(&s("fresh")), Some(s("v")));
    assert_eq!(respond(&mut db, "UPDATE newer 1"), r#"{"status":"success","action":"updated"}"#);
    assert_eq!(db.get(&s("newer")), Some(s("1")));
}

#[test]
fn insert_overwrites_an_insert() {
    let mut db = Database::new();
    db.insert(s("k"), s("v1"));
    db.insert(s("k"), s("v2"));
    assert_eq!(db.get(&s("k")), Some(s("v2")));
}

#[test]
fn get_of_an_absent_key_is_none() {
    let mut db = Database::new();
    assert_eq!(db.get(&s("k")), None);
    db.insert(s("a"), s("1"));
    assert_eq!(db.get(&s("k")), None);
    assert_eq!(execute(&mut db, Command::Get { key: s("k") }), Response::KeyNotFound);
}

#[test]
fn distinct_keys_do_not_disturb_each_other() {
    let mut one = Database::new();
    one.insert(s("a"), s("1"));
    one.insert(s("b"), s("2"));
    let mut other = Database::new();
    other.insert(s("b"), s("2"));
    other.insert(s("a"), s("1"));
    for db in [&one, &other] {
        assert_eq!(db.get(&s("a")), Some(s("1")));
        assert_eq!(db.get(&s("b")), Some(s("2")));
    }
}

#[test]
fn parse_reads_the_three_commands() {
    assert_eq!(parse("INSERT k v"), Command::Insert { key: s("k"), value: s("v") });
    assert_eq!(parse("UPDATE k v"), Command::Update { key: s("k"), value: s("v") });
    assert_eq!(parse("GET k"), Command::Get { key: s("k") });
}

#[test]
fn parse_ignores_spaces_around_and_between() {
    assert_eq!(parse("  INSERT \t k   v \r\n"), Command::Insert { key: s("k"), value: s("v") });
    assert_eq!(parse("\tGET\u{3000}k\u{a0}"), Command::Get { key: s("k") });
}

#[test]
fn parse_rejects_what_the_grammar_does_not_hold() {
    for line in [
        "", " ", "\n", "DELETE foo", "insert k v", "Get k", "GET", "GET a b", "INSERT k",
        "INSERT k v w", "UPDATE k", "UPDATE", "UPDATE k v w", "INSERT", "GETk", "k GET",
        "INSERTk v w",
    ] {
        assert_eq!(parse(line), Command::Invalid, "{:?}", line);
    }
}

#[test]
fn an_invalid_line_leaves_the_store_alone() {
    let mut db = Database::new();
    db.insert(s("k"), s("v"));
    assert_eq!(respond(&mut db, "INSERT k"), r#"{"status":"error","message":"invalid command"}"#);
    assert_eq!(respond(&mut db, ""), r#"{"status":"error","message":"invalid command"}"#);
    assert_eq!(db.get(&s("k")), Some(s("v")));
}

#[test]
fn tokenize_splits_on_runs_of_spaces() {
    assert_eq!(tokenize("a  bc\td"), vec![s("a"), s("bc"), s("d")]);
    assert_eq!(tokenize("  lead and trail  "), vec![s("lead"), s("and"), s("trail")]);
    assert_eq!(tokenize(""), Vec::<String>::new());
    assert_eq!(tokenize(" \t\r\n"), Vec::<String>::new());
    assert_eq!(tokenize("one"), vec![s("one")]);
}

#[test]
fn tokenize_agrees_with_std_on_mixed_text() {
    for line in ["INSERT  k\u{2003}v", "\u{85}x\u{1680}y\u{2028}z", "a\u{200b}b c", "é ü\u{205f}ß", "x\u{0b}y\u{0c}z\u{1f}w"] {
        let want: Vec<String> = line.split_whitespace().map(|w| w.to_string()).collect();
        assert_eq!(tokenize(line), want, "{:?}", line);
    }
}

#[test]
fn is_space_char_agrees_with_std_on_every_char() {
    for n in 0u32..=0x10ffff {
        if let Some(c) = char::from_u32(n) {
            assert_eq!(is_space_char(c), c.is_whitespace(), "{:x}", n);
        }
    }
}

#[test]
fn encode_writes_each_reply() {
    assert_eq!(encode(&Response::Inserted), r#"{"status":"success","action":"inserted"}"#);
    assert_eq!(encode(&Response::Updated), r#"{"status":"success","action":"updated"}"#);
    assert_eq!(encode(&Response::Found(s("bar"))), r#"{"status":"success","value":"bar"}"#);
    assert_eq!(encode(&Response::KeyNotFound), r#"{"status":"error","message":"key not found"}"#);
    assert_eq!(encode(&Response::InvalidCommand), r#"{"status":"error","message":"invalid command"}"#);
}

#[test]
fn encode_escapes_a_value() {
    assert_eq!(
        encode(&Response::Found(s("a\"b\\c\u{1}"))),
        "{\"status\":\"success\",\"value\":\"a\\\"b\\\\c\\u0001\"}"
    );
    assert_eq!(encode(&Response::Found(s(""))), r#"{"status":"success","value":""}"#);
}

#[test]
fn encode_parses_back_to_the_members() {
    let text = encode(&Response::Found(s("v\"1")));
    let value: serde_json::Value = serde_json::from_str(&text).unwrap();
    assert_eq!(value["status"].as_str(), Some("success"));
    assert_eq!(value["value"].as_str(), Some("v\"1"));
    assert_eq!(value.as_object().unwrap().len(), 2);
}

#[test]
fn is_success_tells_the_two_kinds_apart() {
    assert!(Response::Inserted.is_success());
    assert!(Response::Updated.is_success());
    assert!(Response::Found(s("x")).is_success());
    assert!(!Response::KeyNotFound.is_success());
    assert!(!Response::InvalidCommand.is_success());
}

#[test]
fn execute_reports_what_it_did() {
    let mut db = Database::new();
    assert_eq!(execute(&mut db, Command::Insert { key: s("k"), value: s("1") }), Response::Inserted);
    assert_eq!(execute(&mut db, Command::Get { key: s("k") }), Response::Found(s("1")));
    assert_eq!(execute(&mut db, Command::Update { key: s("k"), value: s("2") }), Response::Updated);
    assert_eq!(execute(&mut db, Command::Get { key: s("k") }), Response::Found(s("2")));
    assert_eq!(execute(&mut db, Command::Invalid), Response::InvalidCommand);
    assert_eq!(execute(&mut db, Command::Get { key: s("k") }), Response::Found(s("2")));
}
