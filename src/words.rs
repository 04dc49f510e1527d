//! Splitting a phrase into whitespace-separated words.
//!
//! A phrase such as `"log --shortstat"` stands for the word list
//! `["log", "--shortstat"]`. Quoting is not understood: a word can never hold
//! whitespace when it is given through a phrase.
use vstd::prelude::*;

verus! {

/// The characters that separate words: ASCII space, tab, line feed,
/// form feed and carriage return.
pub open spec fn is_word_separator(c: char) -> bool {
    c == ' ' || c == '\t' || c == '\n' || c == '\r' || c == '\u{0c}'
}

/// Reads `s` from the left: the words already closed by a separator, and the
/// word still being read at the end of `s` (empty when `s` ends in a
/// separator).
pub open spec fn scan_words(s: Seq<char>) -> (Seq<Seq<char>>, Seq<char>)
    decreases s.len(),
{
    if s.len() == 0 {
        (seq![], seq![])
    } else {
        let (done, cur) = scan_words(s.drop_last());
        let c = s.last();
        if is_word_separator(c) {
            if cur.len() > 0 {
                (done.push(cur), seq![])
            } else {
                (done, seq![])
            }
        } else {
            (done, cur.push(c))
        }
    }
}

/// The words of `s`: its maximal runs of characters that are not separators,
/// in order.
pub open spec fn split_words(s: Seq<char>) -> Seq<Seq<char>> {
    let (done, cur) = scan_words(s);
    if cur.len() > 0 {
        done.push(cur)
    } else {
        done
    }
}

/// A word that a phrase can carry: not empty, and free of separators.
pub open spec fn is_plain_word(w: Seq<char>) -> bool {
    w.len() > 0 && forall|j: int| 0 <= j < w.len() ==> !is_word_separator(#[trigger] w[j])
}

/// The words `ws` written one after another with a single space between
/// neighbours.
pub open spec fn join_words(ws: Seq<Seq<char>>) -> Seq<char>
    decreases ws.len(),
{
    if ws.len() == 0 {
        seq![]
    } else if ws.len() == 1 {
        ws[0]
    } else {
        join_words(ws.drop_last()).push(' ') + ws.last()
    }
}

proof fn lemma_scan_plain_suffix(p: Seq<char>, q: Seq<char>)
    requires
        forall|j: int| 0 <= j < q.len() ==> !is_word_separator(#[trigger] q[j]),
    ensures
        scan_words(p + q) == (scan_words(p).0, scan_words(p).1 + q),
    decreases q.len(),
{
    if q.len() == 0 {
        assert(p + q == p);
        assert(scan_words(p).1 + q == scan_words(p).1);
    } else {
        let q0 = q.drop_last();
        assert((p + q).drop_last() == p + q0);
        assert((p + q).last() == q.last());
        lemma_scan_plain_suffix(p, q0);
        assert((scan_words(p).1 + q0).push(q.last()) == scan_words(p).1 + q);
    }
}

proof fn lemma_scan_joined(ws: Seq<Seq<char>>)
    requires
        ws.len() > 0,
        forall|i: int| 0 <= i < ws.len() ==> is_plain_word(#[trigger] ws[i]),
    ensures
        scan_words(join_words(ws)) == (ws.drop_last(), ws.last()),
    decreases ws.len(),
{
    if ws.len() == 1 {
        let e = Seq::<char>::empty();
        lemma_scan_plain_suffix(e, ws[0]);
        assert(e + ws[0] == ws[0]);
        assert(ws.drop_last() == Seq::<Seq<char>>::empty());
    } else {
        let init = ws.drop_last();
        assert(forall|i: int| 0 <= i < init.len() ==> #[trigger] init[i] == ws[i]);
        lemma_scan_joined(init);
        let spaced = join_words(init).push(' ');
        assert(spaced.drop_last() == join_words(init));
        assert(is_plain_word(init[init.len() - 1]));
        assert(init.drop_last().push(init.last()) == init);
        assert(scan_words(spaced) == (init, Seq::<char>::empty()));
        assert(is_plain_word(ws[ws.len() - 1]));
        lemma_scan_plain_suffix(spaced, ws.last());
        assert(Seq::<char>::empty() + ws.last() == ws.last());
    }
}

/// A phrase made of plain words joined by single spaces splits back into
/// exactly those words, in order.
pub proof fn split_of_joined_words(ws: Seq<Seq<char>>)
    requires
        forall|i: int| 0 <= i < ws.len() ==> is_plain_word(#[trigger] ws[i]),
    ensures
        split_words(join_words(ws)) == ws,
{
    if ws.len() > 0 {
        lemma_scan_joined(ws);
        assert(is_plain_word(ws[ws.len() - 1]));
        assert(ws.drop_last().push(ws.last()) == ws);
    } else {
        assert(ws == Seq::<Seq<char>>::empty());
    }
}

fn is_separator(c: char) -> (r: bool)
    ensures
        r == is_word_separator(c),
{
    c == ' ' || c == '\t' || c == '\n' || c == '\r' || c == '\u{0c}'
}

/// Splits `s` into its words.
pub fn split_words_of(s: &str) -> (r: Vec<String>)
    ensures
        r@.map_values(|w: String| w@) == split_words(s@),
{
    let mut done: Vec<String> = Vec::new();
    let mut start: usize = 0;
    let mut i: usize = 0;
    let n: usize = s.unicode_len();
    for c in it: s.chars()
        invariant
            it.seq() == s@,
            n == s@.len(),
            i == it.index(),
            start <= i <= s@.len(),
            scan_words(s@.take(i as int)) == (done@.map_values(|w: String| w@), s@.subrange(start as int, i as int)),
    {
        assert(i < s@.len() && c == s@[i as int]);
        assert(s@.take(i + 1).drop_last() == s@.take(i as int));
        if is_separator(c) {
            if start < i {
                let w = s.substring_char(start, i).to_owned();
                done.push(w);
            }
            i = i + 1;
            start = i;
        } else {
            assert(s@.subrange(start as int, i + 1) == s@.subrange(start as int, i as int).push(c));
            i = i + 1;
        }
    }
    assert(s@.take(i as int) == s@);
    if start < i {
        let w = s.substring_char(start, i).to_owned();
        done.push(w);
    }
    done
}

} // verus!
