//! Splitting a line of text into words.

use vstd::prelude::*;

verus! {

/// Whether `c` separates words: the characters with the Unicode property
/// `White_Space`.
pub open spec fn is_space(c: char) -> bool {
    let n = c as u32;
    ||| 0x09 <= n <= 0x0d
    ||| n == 0x20
    ||| n == 0x85
    ||| n == 0xa0
    ||| n == 0x1680
    ||| 0x2000 <= n <= 0x200a
    ||| n == 0x2028
    ||| n == 0x2029
    ||| n == 0x202f
    ||| n == 0x205f
    ||| n == 0x3000
}

/// The words of `s`: its maximal runs of characters that are not spaces, from
/// left to right. Spaces before the first word, between words and after the
/// last one separate and are otherwise ignored.
///
/// The definition reads `s` from its end: a space adds nothing to the words
/// of what precedes it, a character behind another word character lengthens
/// the last word, and any other character starts a new word.
pub open spec fn tokens(s: Seq<char>) -> Seq<Seq<char>>
    decreases s.len(),
{
    if s.len() == 0 {
        Seq::empty()
    } else {
        let before = tokens(s.drop_last());
        let c = s.last();
        if is_space(c) {
            before
        } else if s.len() >= 2 && !is_space(s[s.len() - 2]) {
            before.drop_last().push(before.last().push(c))
        } else {
            before.push(seq![c])
        }
    }
}

/// Whether `w` can be a word: it is not empty and holds no space.
pub open spec fn is_word(w: Seq<char>) -> bool {
    w.len() > 0 && forall|i: int| 0 <= i < w.len() ==> !is_space(#[trigger] w[i])
}

/// Every word of a text is a word in the sense of `is_word`, and a text that
/// ends in a character other than a space has at least one.
pub proof fn lemma_tokens_are_words(s: Seq<char>)
    ensures
        forall|i: int| 0 <= i < tokens(s).len() ==> is_word(#[trigger] tokens(s)[i]),
        s.len() > 0 && !is_space(s.last()) ==> tokens(s).len() > 0,
    decreases s.len(),
{
    if s.len() > 0 {
        let before = tokens(s.drop_last());
        let c = s.last();
        lemma_tokens_are_words(s.drop_last());
        if is_space(c) {
        } else if s.len() >= 2 && !is_space(s[s.len() - 2]) {
            assert(s.drop_last().last() == s[s.len() - 2]);
            let longer = before.last().push(c);
            assert(is_word(before.last()));
            assert(is_word(longer)) by {
                assert forall|i: int| 0 <= i < longer.len() implies !is_space(
                    #[trigger] longer[i],
                ) by {
                    if i < before.last().len() {
                        assert(longer[i] == before.last()[i]);
                    }
                }
            }
            assert forall|i: int| 0 <= i < tokens(s).len() implies is_word(
                #[trigger] tokens(s)[i],
            ) by {
                if i < before.len() - 1 {
                    assert(tokens(s)[i] == before[i]);
                }
            }
        } else {
            assert(is_word(seq![c]));
            assert forall|i: int| 0 <= i < tokens(s).len() implies is_word(
                #[trigger] tokens(s)[i],
            ) by {
                if i < before.len() {
                    assert(tokens(s)[i] == before[i]);
                }
            }
        }
    }
}

/// A space between two texts keeps their words apart: the words of the whole
/// are the words of what stands before the space, then the words of what
/// stands behind it.
pub proof fn lemma_tokens_across_space(a: Seq<char>, sp: char, b: Seq<char>)
    requires
        is_space(sp),
    ensures
        tokens(a.push(sp) + b) == tokens(a) + tokens(b),
    decreases b.len(),
{
    let s = a.push(sp) + b;
    if b.len() == 0 {
        assert(s =~= a.push(sp));
        assert(a.push(sp).drop_last() =~= a);
        assert(tokens(a) + tokens(b) =~= tokens(a));
    } else {
        let shorter = b.drop_last();
        let c = b.last();
        lemma_tokens_across_space(a, sp, shorter);
        lemma_tokens_are_words(shorter);
        assert(s.drop_last() =~= a.push(sp) + shorter);
        assert(s.last() == c);
        let ta = tokens(a);
        let tb = tokens(shorter);
        if is_space(c) {
        } else if b.len() >= 2 && !is_space(b[b.len() - 2]) {
            assert(s[s.len() - 2] == b[b.len() - 2]);
            assert(shorter.last() == b[b.len() - 2]);
            assert((ta + tb).drop_last() =~= ta + tb.drop_last());
            assert((ta + tb).last() == tb.last());
            assert(tokens(s) =~= ta + tokens(b));
        } else {
            if b.len() >= 2 {
                assert(s[s.len() - 2] == b[b.len() - 2]);
            } else {
                assert(s[s.len() - 2] == sp);
            }
            assert(tokens(s) =~= ta + tokens(b));
        }
    }
}

/// A word alone is its own single word.
pub proof fn lemma_word_is_one_token(w: Seq<char>)
    requires
        is_word(w),
    ensures
        tokens(w) == seq![w],
    decreases w.len(),
{
    let c = w.last();
    let shorter = w.drop_last();
    assert(!is_space(w[w.len() - 1]));
    if w.len() == 1 {
        assert(tokens(shorter) =~= Seq::<Seq<char>>::empty());
        assert(w =~= seq![c]);
        assert(tokens(w) =~= seq![w]);
    } else {
        assert(!is_space(w[w.len() - 2]));
        assert(is_word(shorter)) by {
            assert forall|i: int| 0 <= i < shorter.len() implies !is_space(
                #[trigger] shorter[i],
            ) by {
                assert(shorter[i] == w[i]);
            }
        }
        lemma_word_is_one_token(shorter);
        assert(shorter.push(c) =~= w);
        assert(tokens(w) =~= seq![w]);
    }
}

/// `s` without the spaces at its end.
pub open spec fn trim_end(s: Seq<char>) -> Seq<char>
    decreases s.len(),
{
    if s.len() > 0 && is_space(s.last()) {
        trim_end(s.drop_last())
    } else {
        s
    }
}

/// `s` without the spaces at its start.
pub open spec fn trim_start(s: Seq<char>) -> Seq<char>
    decreases s.len(),
{
    if s.len() > 0 && is_space(s.first()) {
        trim_start(s.drop_first())
    } else {
        s
    }
}

/// `s` without the spaces at either end.
pub open spec fn trimmed(s: Seq<char>) -> Seq<char> {
    trim_start(trim_end(s))
}

/// Spaces at the end of a text add no word.
proof fn lemma_trim_end_keeps_tokens(s: Seq<char>)
    ensures
        tokens(trim_end(s)) == tokens(s),
    decreases s.len(),
{
    if s.len() > 0 && is_space(s.last()) {
        lemma_trim_end_keeps_tokens(s.drop_last());
    }
}

/// Spaces at the start of a text add no word.
proof fn lemma_trim_start_keeps_tokens(s: Seq<char>)
    ensures
        tokens(trim_start(s)) == tokens(s),
    decreases s.len(),
{
    if s.len() > 0 && is_space(s.first()) {
        let none = Seq::<char>::empty();
        lemma_tokens_across_space(none, s.first(), s.drop_first());
        assert(none.push(s.first()) + s.drop_first() =~= s);
        assert(tokens(none) + tokens(s.drop_first()) =~= tokens(s.drop_first()));
        lemma_trim_start_keeps_tokens(s.drop_first());
    }
}

/// Trimming a text first changes nothing: its words are those of the text
/// as it stands. A line may thus keep its terminator.
pub proof fn lemma_trimming_keeps_tokens(s: Seq<char>)
    ensures
        tokens(trimmed(s)) == tokens(s),
{
    lemma_trim_start_keeps_tokens(trim_end(s));
    lemma_trim_end_keeps_tokens(s);
}

/// The views of a sequence of strings, item by item.
pub open spec fn views(v: Seq<String>) -> Seq<Seq<char>> {
    Seq::new(v.len(), |i: int| v[i]@)
}

/// Decides `is_space` for one character.
pub fn is_space_char(c: char) -> (b: bool)
    ensures
        b == is_space(c),
{
    let n: u32 = c as u32;
    (0x09 <= n && n <= 0x0d) || n == 0x20 || n == 0x85 || n == 0xa0 || n == 0x1680 || (0x2000 <= n
        && n <= 0x200a) || n == 0x2028 || n == 0x2029 || n == 0x202f || n == 0x205f || n == 0x3000
}

/// `String::push` of std: the string afterwards is the string before with `c`
/// appended as its last character.
#[verifier::external_body]
fn push_char(s: &mut String, c: char)
    ensures
        final(s)@ == old(s)@.push(c),
{
    s.push(c);
}

/// Splits `line` into its words.
pub fn tokenize(line: &str) -> (words: Vec<String>)
    ensures
        views(words@) == tokens(line@),
{
    let mut words: Vec<String> = Vec::new();
    let mut cur = String::new();
    let mut in_word = false;
    for c in it: line.chars()
        invariant
            it.seq() == line@,
            in_word <==> it.index() > 0 && !is_space(line@[it.index() - 1]),
            !in_word ==> cur@.len() == 0,
            tokens(line@.take(it.index() as int)) == (if in_word {
                views(words@).push(cur@)
            } else {
                views(words@)
            }),
    {
        let ghost i = it.index() as int;
        let ghost old_words = words@;
        let ghost old_cur = cur@;
        proof {
            assert(line@.take(i + 1).drop_last() =~= line@.take(i));
            assert(line@.take(i + 1).last() == c);
        }
        if is_space_char(c) {
            if in_word {
                words.push(cur);
                cur = String::new();
                in_word = false;
                proof {
                    assert(views(words@) =~= views(old_words).push(old_cur));
                }
            }
        } else {
            push_char(&mut cur, c);
            proof {
                if in_word {
                    assert(views(old_words).push(old_cur).drop_last() =~= views(old_words));
                } else {
                    assert(old_cur.push(c) =~= seq![c]);
                }
            }
            in_word = true;
        }
    }
    proof {
        assert(line@.take(line@.len() as int) =~= line@);
    }
    if in_word {
        let ghost old_words = words@;
        words.push(cur);
        proof {
            assert(views(words@) =~= views(old_words).push(cur@));
        }
    }
    words
}

} // verus!
