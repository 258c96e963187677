//! What holds of the protocol as a whole, stated over lines and the mapping
//! that the store holds.

use crate::command::{parsed, CommandView};
use crate::response::{encoded, succeeded, ResponseView};
use crate::session::{applied, outcome};
use crate::text::{is_space, is_word, lemma_tokens_across_space, lemma_word_is_one_token, tokens};
use vstd::prelude::*;

verus! {

/// The line `INSERT k v`, with one blank between the words.
pub open spec fn insert_line(k: Seq<char>, v: Seq<char>) -> Seq<char> {
    ("INSERT"@.push(' ') + k).push(' ') + v
}

/// The line `UPDATE k v`, with one blank between the words.
pub open spec fn update_line(k: Seq<char>, v: Seq<char>) -> Seq<char> {
    ("UPDATE"@.push(' ') + k).push(' ') + v
}

/// The line `GET k`, with one blank between the words.
pub open spec fn get_line(k: Seq<char>) -> Seq<char> {
    "GET"@.push(' ') + k
}

/// Whether a command sets the key `k`.
pub open spec fn writes_key(cmd: CommandView, k: Seq<char>) -> bool {
    match cmd {
        CommandView::Insert { key, .. } => key == k,
        CommandView::Update { key, .. } => key == k,
        _ => false,
    }
}

/// Whether a list of words has the form of one of the three commands.
pub open spec fn in_grammar(words: Seq<Seq<char>>) -> bool {
    ||| words.len() == 3 && words[0] == "INSERT"@
    ||| words.len() == 3 && words[0] == "UPDATE"@
    ||| words.len() == 2 && words[0] == "GET"@
}

/// The store after the commands of `lines` were carried out on `store`, one
/// after the other.
pub open spec fn run(store: Map<Seq<char>, Seq<char>>, lines: Seq<Seq<char>>) -> Map<
    Seq<char>,
    Seq<char>,
>
    decreases lines.len(),
{
    if lines.len() == 0 {
        store
    } else {
        applied(run(store, lines.drop_last()), parsed(lines.last()))
    }
}

/// The three keywords are words, and no two of them are the same.
proof fn lemma_keywords()
    ensures
        is_word("INSERT"@),
        is_word("UPDATE"@),
        is_word("GET"@),
        "INSERT"@ != "UPDATE"@,
        "INSERT"@ != "GET"@,
        "UPDATE"@ != "GET"@,
{
    reveal_strlit("INSERT");
    reveal_strlit("UPDATE");
    reveal_strlit("GET");
    assert("INSERT"@[0] == 'I');
    assert("UPDATE"@[0] == 'U');
    assert(is_word("INSERT"@));
    assert(is_word("UPDATE"@));
    assert(is_word("GET"@));
}

/// The words of a keyword followed by two words.
proof fn lemma_three_words(head: Seq<char>, k: Seq<char>, v: Seq<char>)
    requires
        is_word(head),
        is_word(k),
        is_word(v),
    ensures
        tokens((head.push(' ') + k).push(' ') + v) == seq![head, k, v],
        tokens(head.push(' ') + k) == seq![head, k],
{
    assert(is_space(' '));
    lemma_word_is_one_token(head);
    lemma_word_is_one_token(k);
    lemma_word_is_one_token(v);
    lemma_tokens_across_space(head, ' ', k);
    lemma_tokens_across_space(head.push(' ') + k, ' ', v);
    assert(seq![head] + seq![k] =~= seq![head, k]);
    assert(seq![head, k] + seq![v] =~= seq![head, k, v]);
}

/// A line made of a keyword and as many words as it takes states that
/// command, with those words as key and value.
pub proof fn law_lines_state_commands(k: Seq<char>, v: Seq<char>)
    requires
        is_word(k),
        is_word(v),
    ensures
        parsed(insert_line(k, v)) == (CommandView::Insert { key: k, value: v }),
        parsed(update_line(k, v)) == (CommandView::Update { key: k, value: v }),
        parsed(get_line(k)) == (CommandView::Get { key: k }),
{
    lemma_keywords();
    lemma_three_words("INSERT"@, k, v);
    lemma_three_words("UPDATE"@, k, v);
    lemma_three_words("GET"@, k, v);
}

/// Lines that do not set the key `k` leave it as it was: absent, or with the
/// value that it had.
pub proof fn lemma_untouched_key(
    store: Map<Seq<char>, Seq<char>>,
    lines: Seq<Seq<char>>,
    k: Seq<char>,
)
    requires
        forall|i: int| 0 <= i < lines.len() ==> !writes_key(parsed(#[trigger] lines[i]), k),
    ensures
        run(store, lines).contains_key(k) == store.contains_key(k),
        store.contains_key(k) ==> run(store, lines)[k] == store[k],
    decreases lines.len(),
{
    if lines.len() > 0 {
        let earlier = lines.drop_last();
        assert forall|i: int| 0 <= i < earlier.len() implies !writes_key(
            parsed(#[trigger] earlier[i]),
            k,
        ) by {
            assert(earlier[i] == lines[i]);
        }
        lemma_untouched_key(store, earlier, k);
        assert(!writes_key(parsed(lines[lines.len() - 1]), k));
    }
}

/// After `INSERT k v`, `GET k` is answered with `v`, whatever the store held
/// before, and whatever lines came in between as long as none of them set
/// `k` again.
pub proof fn law_round_trip(
    store: Map<Seq<char>, Seq<char>>,
    k: Seq<char>,
    v: Seq<char>,
    between: Seq<Seq<char>>,
)
    requires
        is_word(k),
        is_word(v),
        forall|i: int| 0 <= i < between.len() ==> !writes_key(parsed(#[trigger] between[i]), k),
    ensures
        outcome(store, parsed(insert_line(k, v))) == ResponseView::Inserted,
        outcome(run(applied(store, parsed(insert_line(k, v))), between), parsed(get_line(k)))
            == ResponseView::Found(v),
{
    law_lines_state_commands(k, v);
    lemma_untouched_key(applied(store, parsed(insert_line(k, v))), between, k);
}

/// After `INSERT k v1` and then `UPDATE k v2`, `GET k` is answered with
/// `v2`, and not with `v1` where the two differ.
pub proof fn law_overwrite(
    store: Map<Seq<char>, Seq<char>>,
    k: Seq<char>,
    v1: Seq<char>,
    v2: Seq<char>,
)
    requires
        is_word(k),
        is_word(v1),
        is_word(v2),
    ensures
        outcome(
            applied(applied(store, parsed(insert_line(k, v1))), parsed(update_line(k, v2))),
            parsed(get_line(k)),
        ) == ResponseView::Found(v2),
        v1 != v2 ==> outcome(
            applied(applied(store, parsed(insert_line(k, v1))), parsed(update_line(k, v2))),
            parsed(get_line(k)),
        ) != ResponseView::Found(v1),
{
    law_lines_state_commands(k, v1);
    law_lines_state_commands(k, v2);
}

/// An update of a key that the store does not hold creates it, as an insert
/// would: the two commands leave the same store.
pub proof fn law_update_is_insert(store: Map<Seq<char>, Seq<char>>, k: Seq<char>, v: Seq<char>)
    requires
        is_word(k),
        is_word(v),
    ensures
        applied(store, parsed(update_line(k, v))) == applied(store, parsed(insert_line(k, v))),
        outcome(store, parsed(update_line(k, v))) == ResponseView::Updated,
{
    law_lines_state_commands(k, v);
}

/// `GET k` on a store that began empty and on which no line ever set `k` is
/// answered with the error for a missing key, which is no success.
pub proof fn law_miss(lines: Seq<Seq<char>>, k: Seq<char>)
    requires
        is_word(k),
        forall|i: int| 0 <= i < lines.len() ==> !writes_key(parsed(#[trigger] lines[i]), k),
    ensures
        outcome(run(Map::empty(), lines), parsed(get_line(k))) == ResponseView::KeyNotFound,
        !succeeded(outcome(run(Map::empty(), lines), parsed(get_line(k)))),
{
    law_lines_state_commands(k, k);
    lemma_untouched_key(Map::empty(), lines, k);
}

/// A line whose words are not exactly a keyword with its key, and its value
/// where it takes one, is answered with the error for an invalid command and
/// leaves the store as it is. The empty line, a wrong keyword and a wrong
/// number of words are such lines.
pub proof fn law_grammar_rejection(store: Map<Seq<char>, Seq<char>>, line: Seq<char>)
    ensures
        in_grammar(tokens(line)) <==> parsed(line) != CommandView::Invalid,
        !in_grammar(tokens(line)) ==> outcome(store, parsed(line)) == ResponseView::InvalidCommand
            && applied(store, parsed(line)) == store && encoded(outcome(store, parsed(line)))
            == encoded(ResponseView::InvalidCommand),
        in_grammar(tokens(line)) ==> outcome(store, parsed(line)) != ResponseView::InvalidCommand,
        line.len() == 0 ==> !in_grammar(tokens(line)),
{
}

/// Inserts of two different keys do not disturb each other: in either order
/// they leave the same store, and afterwards each key is answered with its
/// own value.
pub proof fn law_distinct_keys_are_independent(
    store: Map<Seq<char>, Seq<char>>,
    k1: Seq<char>,
    v1: Seq<char>,
    k2: Seq<char>,
    v2: Seq<char>,
)
    requires
        is_word(k1),
        is_word(v1),
        is_word(k2),
        is_word(v2),
        k1 != k2,
    ensures
        applied(applied(store, parsed(insert_line(k1, v1))), parsed(insert_line(k2, v2)))
            == applied(applied(store, parsed(insert_line(k2, v2))), parsed(insert_line(k1, v1))),
        outcome(
            applied(applied(store, parsed(insert_line(k1, v1))), parsed(insert_line(k2, v2))),
            parsed(get_line(k1)),
        ) == ResponseView::Found(v1),
        outcome(
            applied(applied(store, parsed(insert_line(k1, v1))), parsed(insert_line(k2, v2))),
            parsed(get_line(k2)),
        ) == ResponseView::Found(v2),
{
    law_lines_state_commands(k1, v1);
    law_lines_state_commands(k2, v2);
    assert(store.insert(k1, v1).insert(k2, v2) =~= store.insert(k2, v2).insert(k1, v1));
}

} // verus!
