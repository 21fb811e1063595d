//! The argument source: an argument line is cut into tokens at white space.

use crate::text::{chars_of, is_whitespace, spec_is_whitespace};
use vstd::prelude::*;
use vstd::string::*;

verus! {

/// How many characters at the start of `s` come before the first white space
/// or the end.
pub open spec fn word_len(s: Seq<char>) -> nat
    decreases s.len(),
{
    if s.len() == 0 || is_whitespace(s[0]) {
        0
    } else {
        1 + word_len(s.drop_first())
    }
}

/// The tokens of `s`: its maximal runs of characters that are not white
/// space, from left to right.
pub open spec fn tokens(s: Seq<char>) -> Seq<Seq<char>>
    decreases s.len(),
    via tokens_decreases
{
    if s.len() == 0 {
        Seq::empty()
    } else if is_whitespace(s[0]) {
        tokens(s.drop_first())
    } else {
        seq![s.take(word_len(s) as int)] + tokens(s.skip(word_len(s) as int))
    }
}

#[via_fn]
proof fn tokens_decreases(s: Seq<char>) {
    if s.len() > 0 && !is_whitespace(s[0]) {
        lemma_word_len_bounds(s);
    }
}

/// A word is no longer than the text it starts, holds no white space, and
/// ends at white space or at the end of the text.
pub proof fn lemma_word_len_bounds(s: Seq<char>)
    ensures
        word_len(s) <= s.len(),
        s.len() > 0 && !is_whitespace(s[0]) ==> word_len(s) >= 1,
        forall|k: int| 0 <= k < word_len(s) ==> !is_whitespace(#[trigger] s[k]),
        word_len(s) < s.len() ==> is_whitespace(s[word_len(s) as int]),
    decreases s.len(),
{
    if s.len() > 0 && !is_whitespace(s[0]) {
        let rest = s.drop_first();
        lemma_word_len_bounds(rest);
        assert forall|k: int| 0 <= k < word_len(s) implies !is_whitespace(#[trigger] s[k]) by {
            if k > 0 {
                assert(s[k] == rest[k - 1]);
            }
        }
        if word_len(s) < s.len() {
            assert(s[word_len(s) as int] == rest[word_len(rest) as int]);
        }
    }
}

/// Whether `t` is a word: not empty, and without white space.
pub open spec fn is_word(t: Seq<char>) -> bool {
    t.len() > 0 && forall|k: int| 0 <= k < t.len() ==> !is_whitespace(#[trigger] t[k])
}

/// Each token is a word.
pub proof fn lemma_tokens_are_words(s: Seq<char>)
    ensures
        forall|i: int| 0 <= i < tokens(s).len() ==> is_word(#[trigger] tokens(s)[i]),
    decreases s.len(),
{
    if s.len() == 0 {
        assert(tokens(s).len() == 0);
    } else if is_whitespace(s[0]) {
        lemma_tokens_are_words(s.drop_first());
        assert(tokens(s) == tokens(s.drop_first()));
    } else {
        let n = word_len(s) as int;
        lemma_word_len_bounds(s);
        lemma_tokens_are_words(s.skip(n));
        let rest = tokens(s.skip(n));
        assert(tokens(s) == seq![s.take(n)] + rest);
        assert(is_word(s.take(n)));
        assert forall|i: int| 0 <= i < tokens(s).len() implies is_word(#[trigger] tokens(s)[i]) by {
            if i > 0 {
                assert(tokens(s)[i] == rest[i - 1]);
            }
        }
    }
}

/// A word is the one token of itself.
pub proof fn lemma_word_is_its_own_token(s: Seq<char>)
    requires
        is_word(s),
    ensures
        tokens(s) == seq![s],
{
    lemma_word_fills(s);
    assert(s.take(s.len() as int) == s);
    assert(tokens(s.skip(s.len() as int)).len() == 0);
    assert(tokens(s) == seq![s] + tokens(s.skip(s.len() as int)));
}

/// A text without white space is one word from end to end.
proof fn lemma_word_fills(s: Seq<char>)
    requires
        forall|k: int| 0 <= k < s.len() ==> !is_whitespace(#[trigger] s[k]),
    ensures
        word_len(s) == s.len(),
    decreases s.len(),
{
    if s.len() > 0 {
        let rest = s.drop_first();
        assert forall|k: int| 0 <= k < rest.len() implies !is_whitespace(#[trigger] rest[k]) by {
            assert(rest[k] == s[k + 1]);
        }
        lemma_word_fills(rest);
    }
}

/// A word ends where white space follows it, whatever stands before that
/// white space.
proof fn lemma_word_ends_at_space(a: Seq<char>, rest: Seq<char>)
    requires
        rest.len() > 0,
        is_whitespace(rest[0]),
    ensures
        word_len(a + rest) == word_len(a),
    decreases a.len(),
{
    if a.len() == 0 {
        assert(a + rest == rest);
    } else {
        assert((a + rest)[0] == a[0]);
        if !is_whitespace(a[0]) {
            assert((a + rest).drop_first() == a.drop_first() + rest);
            lemma_word_ends_at_space(a.drop_first(), rest);
        }
    }
}

/// Cutting is done at white space: the tokens of two texts with a white
/// space character between them are the tokens of the first, then those of
/// the second.
pub proof fn lemma_tokens_split_at_space(a: Seq<char>, c: char, b: Seq<char>)
    requires
        is_whitespace(c),
    ensures
        tokens(a + seq![c] + b) == tokens(a) + tokens(b),
    decreases a.len(),
{
    let rest = seq![c] + b;
    let all = a + rest;
    assert(all == a + seq![c] + b);
    if a.len() == 0 {
        assert(all.drop_first() == b);
        assert(all[0] == c);
        assert(tokens(all) == tokens(b));
    } else if is_whitespace(a[0]) {
        assert(all[0] == a[0]);
        assert(all.drop_first() == a.drop_first() + seq![c] + b);
        lemma_tokens_split_at_space(a.drop_first(), c, b);
    } else {
        assert(all[0] == a[0]);
        let n = word_len(a) as int;
        lemma_word_ends_at_space(a, rest);
        lemma_word_len_bounds(a);
        assert(all.take(n) == a.take(n));
        assert(all.skip(n) == a.skip(n) + seq![c] + b);
        lemma_tokens_split_at_space(a.skip(n), c, b);
        assert(tokens(all) == seq![a.take(n)] + (tokens(a.skip(n)) + tokens(b)));
    }
}

/// A text has no token exactly when all of it is white space. The empty
/// text is such a text.
pub proof fn lemma_no_tokens_iff_blank(s: Seq<char>)
    ensures
        tokens(s).len() == 0 <==> forall|k: int| 0 <= k < s.len() ==> is_whitespace(#[trigger] s[k]),
    decreases s.len(),
{
    if s.len() > 0 && is_whitespace(s[0]) {
        let rest = s.drop_first();
        lemma_no_tokens_iff_blank(rest);
        if tokens(s).len() == 0 {
            assert forall|k: int| 0 <= k < s.len() implies is_whitespace(#[trigger] s[k]) by {
                if k > 0 {
                    assert(s[k] == rest[k - 1]);
                }
            }
        } else {
            let k = choose|k: int| 0 <= k < rest.len() && !is_whitespace(#[trigger] rest[k]);
            assert(s[k + 1] == rest[k]);
        }
    }
}

/// Where the word that starts at `start` ends.
fn word_end(chars: &Vec<char>, start: usize) -> (end: usize)
    requires
        start <= chars.len(),
    ensures
        start <= end <= chars.len(),
        end - start == word_len(chars@.skip(start as int)),
{
    let mut end = start;
    while end < chars.len() && !is_whitespace(chars[end])
        invariant
            start <= end <= chars.len(),
            word_len(chars@.skip(start as int)) == (end - start) + word_len(
                chars@.skip(end as int),
            ),
        decreases chars.len() - end,
    {
        assert(chars@.skip(end as int).drop_first() == chars@.skip(end + 1));
        end += 1;
    }
    end
}

/// The first token of a text, if it has one.
pub fn first_token(line: &str) -> (found: Option<String>)
    ensures
        match found {
            Some(token) => tokens(line@).len() > 0 && token@ == tokens(line@)[0],
            None => tokens(line@).len() == 0,
        },
{
    let chars = chars_of(line);
    let mut at: usize = 0;
    assert(line@.skip(0) == line@);
    while at < chars.len() && is_whitespace(chars[at])
        invariant
            chars@ == line@,
            at <= chars.len(),
            tokens(line@) == tokens(line@.skip(at as int)),
        decreases chars.len() - at,
    {
        assert(line@.skip(at as int).drop_first() == line@.skip(at + 1));
        at += 1;
    }
    let ghost rest = line@.skip(at as int);
    if at == chars.len() {
        assert(tokens(rest).len() == 0);
        None
    } else {
        let end = word_end(&chars, at);
        proof {
            lemma_word_len_bounds(rest);
            assert(rest.take(end - at) == line@.subrange(at as int, end as int));
            assert(tokens(rest)[0] == rest.take(end - at));
        }
        Some(line.substring_char(at, end).to_owned())
    }
}

/// Cuts an argument line into its tokens, in order. An empty line, or one of
/// white space only, has none.
pub fn expand(line: &str) -> (found: Vec<String>)
    ensures
        found.deep_view() == tokens(line@),
{
    let chars = chars_of(line);
    let mut found: Vec<String> = Vec::new();
    let mut at: usize = 0;
    assert(line@.skip(0) == line@);
    assert(found.deep_view() == Seq::<Seq<char>>::empty());
    while at < chars.len()
        invariant
            chars@ == line@,
            at <= chars.len(),
            tokens(line@) == found.deep_view() + tokens(line@.skip(at as int)),
        decreases chars.len() - at,
    {
        let ghost rest = line@.skip(at as int);
        if is_whitespace(chars[at]) {
            assert(rest.drop_first() == line@.skip(at + 1));
            at += 1;
        } else {
            let end = word_end(&chars, at);
            proof {
                lemma_word_len_bounds(rest);
                assert(rest.take(end - at) == line@.subrange(at as int, end as int));
                assert(rest.skip(end - at) == line@.skip(end as int));
            }
            let token = line.substring_char(at, end).to_owned();
            let ghost before = found.deep_view();
            found.push(token);
            assert(found.deep_view() == before + seq![token@]);
            at = end;
        }
    }
    found
}

} // verus!
