//! Character-level helpers on strings: conversion, concatenation, comparison,
//! trimming and literal token substitution.
//!
//! Every function states its result over `Seq<char>`, the view of a string.

use vstd::prelude::*;
use vstd::string::*;

verus! {

/// `String::push` appends one character and changes nothing else.
pub assume_specification[ String::push ](s: &mut String, c: char)
    ensures
        final(s)@ == old(s)@.push(c),
;

/// Whether `token` stands in `text` at position `at`.
pub open spec fn occurs_at(text: Seq<char>, token: Seq<char>, at: int) -> bool {
    &&& 0 <= at
    &&& at + token.len() <= text.len()
    &&& text.subrange(at, at + token.len()) == token
}

/// Whether `token` stands somewhere in `text`.
pub open spec fn occurs_in(text: Seq<char>, token: Seq<char>) -> bool {
    exists|at: int| occurs_at(text, token, at)
}

/// `value`, then each character of `text` followed by `value`: what replacing
/// the empty token means.
pub open spec fn spread(text: Seq<char>, value: Seq<char>) -> Seq<char>
    decreases text.len(),
{
    if text.len() == 0 {
        value
    } else {
        value + seq![text[0]] + spread(text.skip(1), value)
    }
}

/// `text` from position `at` on, with each occurrence of the non-empty `token`
/// replaced by `value`. Occurrences are found from left to right and do not
/// overlap.
pub open spec fn replaced_from(text: Seq<char>, token: Seq<char>, value: Seq<char>, at: int) -> Seq<
    char,
>
    decreases text.len() - at,
{
    if at < 0 || at > text.len() || token.len() == 0 {
        Seq::empty()
    } else if at + token.len() > text.len() {
        text.subrange(at, text.len() as int)
    } else if occurs_at(text, token, at) {
        value + replaced_from(text, token, value, at + token.len())
    } else {
        seq![text[at]] + replaced_from(text, token, value, at + 1)
    }
}

/// `text` with each occurrence of `token` replaced by `value`.
pub open spec fn replaced(text: Seq<char>, token: Seq<char>, value: Seq<char>) -> Seq<char> {
    if token.len() == 0 {
        spread(text, value)
    } else {
        replaced_from(text, token, value, 0)
    }
}

/// `s` without the run of `c` at its end.
pub open spec fn trimmed_end(s: Seq<char>, c: char) -> Seq<char>
    decreases s.len(),
{
    if s.len() > 0 && s.last() == c {
        trimmed_end(s.drop_last(), c)
    } else {
        s
    }
}

/// `s` without the run of `c` at its start.
pub open spec fn trimmed_start(s: Seq<char>, c: char) -> Seq<char>
    decreases s.len(),
{
    if s.len() > 0 && s[0] == c {
        trimmed_start(s.skip(1), c)
    } else {
        s
    }
}

/// The characters of `s`, in order.
pub fn chars_of(s: &str) -> (chars: Vec<char>)
    ensures
        chars@ == s@,
{
    let mut chars: Vec<char> = Vec::new();
    for c in iter: s.chars()
        invariant
            chars@ == iter.seq().take(iter.index()),
            iter.seq() == s@,
    {
        chars.push(c);
    }
    chars
}

/// The string made of `chars[from..to]`.
pub(crate) fn text_of_range(chars: &Vec<char>, from: usize, to: usize) -> (s: String)
    requires
        from <= to <= chars.len(),
    ensures
        s@ == chars@.subrange(from as int, to as int),
{
    let mut s = String::new();
    let mut i: usize = from;
    while i < to
        invariant
            from <= i <= to <= chars.len(),
            s@ == chars@.subrange(from as int, i as int),
        decreases to - i,
    {
        s.push(chars[i]);
        i += 1;
    }
    s
}

/// The string made of `chars`, in order.
pub fn text_of(chars: &Vec<char>) -> (s: String)
    ensures
        s@ == chars@,
{
    let s = text_of_range(chars, 0, chars.len());
    assert(chars@.subrange(0, chars@.len() as int) == chars@);
    s
}

/// `a` followed by `b`.
pub fn join2(a: &str, b: &str) -> (s: String)
    ensures
        s@ == a@ + b@,
{
    let mut s = a.to_owned();
    s.append(b);
    s
}

/// `a`, `b` and `c` in a row.
pub fn join3(a: &str, b: &str, c: &str) -> (s: String)
    ensures
        s@ == a@ + b@ + c@,
{
    let mut s = a.to_owned();
    s.append(b);
    s.append(c);
    s
}

/// Whether the two strings hold the same characters.
pub fn same_text(a: &str, b: &str) -> (same: bool)
    ensures
        same == (a@ == b@),
{
    let left = a.to_owned();
    let right = b.to_owned();
    left == right
}

/// Whether `token` stands in `text` at position `at`.
pub(crate) fn token_at(text: &Vec<char>, token: &Vec<char>, at: usize) -> (found: bool)
    requires
        at + token.len() <= text.len(),
    ensures
        found == occurs_at(text@, token@, at as int),
{
    let mut k: usize = 0;
    while k < token.len()
        invariant
            k <= token.len(),
            at + token.len() <= text.len(),
            forall|j: int| 0 <= j < k ==> text@[at + j] == token@[j],
        decreases token.len() - k,
    {
        if text[at + k] != token[k] {
            assert(text@.subrange(at as int, at + token.len())[k as int] != token@[k as int]);
            return false;
        }
        k += 1;
    }
    assert(text@.subrange(at as int, at + token.len()) =~= token@);
    true
}

fn push_all(out: &mut Vec<char>, piece: &Vec<char>)
    ensures
        final(out)@ == old(out)@ + piece@,
{
    let mut k: usize = 0;
    while k < piece.len()
        invariant
            k <= piece.len(),
            out@ == old(out)@ + piece@.take(k as int),
        decreases piece.len() - k,
    {
        out.push(piece[k]);
        k += 1;
    }
    assert(piece@.take(piece@.len() as int) == piece@);
}

fn spread_chars(text: &Vec<char>, value: &Vec<char>) -> (out: Vec<char>)
    ensures
        out@ == spread(text@, value@),
{
    let mut out: Vec<char> = Vec::new();
    let mut i: usize = 0;
    assert(text@.skip(0) == text@);
    while i < text.len()
        invariant
            i <= text.len(),
            out@ + spread(text@.skip(i as int), value@) == spread(text@, value@),
        decreases text.len() - i,
    {
        let ghost before = out@;
        let ghost rest = text@.skip(i as int);
        push_all(&mut out, value);
        out.push(text[i]);
        proof {
            assert(rest[0] == text@[i as int]);
            assert(rest.skip(1) == text@.skip(i + 1));
            assert(before + (value@ + seq![rest[0]] + spread(rest.skip(1), value@)) == (before
                + value@).push(text@[i as int]) + spread(text@.skip(i + 1), value@));
        }
        i += 1;
    }
    push_all(&mut out, value);
    out
}

/// `text` with each occurrence of `token` replaced by `value`, as
/// `str::replace` does it: occurrences are taken from left to right and do
/// not overlap; an empty token stands before each character and at the end.
pub fn substitute(text: &str, token: &str, value: &str) -> (out: String)
    ensures
        out@ == replaced(text@, token@, value@),
{
    let text_chars = chars_of(text);
    let token_chars = chars_of(token);
    let value_chars = chars_of(value);
    if token_chars.len() == 0 {
        let out_chars = spread_chars(&text_chars, &value_chars);
        return text_of(&out_chars);
    }
    let mut out_chars: Vec<char> = Vec::new();
    let mut i: usize = 0;
    while token_chars.len() <= text_chars.len() - i
        invariant
            i <= text_chars.len(),
            token_chars.len() > 0,
            out_chars@ + replaced_from(text_chars@, token_chars@, value_chars@, i as int)
                == replaced_from(text_chars@, token_chars@, value_chars@, 0),
        decreases text_chars.len() - i,
    {
        if token_at(&text_chars, &token_chars, i) {
            let ghost before = out_chars@;
            push_all(&mut out_chars, &value_chars);
            assert(before + (value_chars@ + replaced_from(
                text_chars@,
                token_chars@,
                value_chars@,
                i + token_chars.len(),
            )) == (before + value_chars@) + replaced_from(
                text_chars@,
                token_chars@,
                value_chars@,
                i + token_chars.len(),
            ));
            i += token_chars.len();
        } else {
            let ghost before = out_chars@;
            out_chars.push(text_chars[i]);
            assert(before + (seq![text_chars@[i as int]] + replaced_from(
                text_chars@,
                token_chars@,
                value_chars@,
                i + 1,
            )) == before.push(text_chars@[i as int]) + replaced_from(
                text_chars@,
                token_chars@,
                value_chars@,
                i + 1,
            ));
            i += 1;
        }
    }
    let ghost kept = out_chars@;
    let ghost start = i;
    while i < text_chars.len()
        invariant
            start <= i <= text_chars.len(),
            out_chars@ == kept + text_chars@.subrange(start as int, i as int),
        decreases text_chars.len() - i,
    {
        out_chars.push(text_chars[i]);
        i += 1;
    }
    text_of(&out_chars)
}

/// `s` without the run of `c` at its end, as `str::trim_end_matches` does it
/// for a single character.
pub fn trim_end_matches(s: &str, c: char) -> (out: String)
    ensures
        out@ == trimmed_end(s@, c),
{
    let chars = chars_of(s);
    let mut end: usize = chars.len();
    assert(chars@.take(end as int) == chars@);
    while end > 0 && chars[end - 1] == c
        invariant
            end <= chars.len(),
            trimmed_end(chars@.take(end as int), c) == trimmed_end(chars@, c),
        decreases end,
    {
        assert(chars@.take(end as int).drop_last() == chars@.take(end - 1));
        end -= 1;
    }
    text_of_range(&chars, 0, end)
}

/// `s` without the run of `c` at its start.
pub fn trim_start_matches(s: &str, c: char) -> (out: String)
    ensures
        out@ == trimmed_start(s@, c),
{
    let chars = chars_of(s);
    let mut start: usize = 0;
    assert(chars@.skip(0) == chars@);
    while start < chars.len() && chars[start] == c
        invariant
            start <= chars.len(),
            trimmed_start(chars@.skip(start as int), c) == trimmed_start(chars@, c),
        decreases chars.len() - start,
    {
        assert(chars@.skip(start as int).skip(1) == chars@.skip(start + 1));
        start += 1;
    }
    let out = text_of_range(&chars, start, chars.len());
    assert(chars@.subrange(start as int, chars@.len() as int) == chars@.skip(start as int));
    out
}

/// A text in which the token does not occur is left as it is.
pub proof fn lemma_replaced_without_token(text: Seq<char>, token: Seq<char>, value: Seq<char>)
    requires
        token.len() > 0,
        !occurs_in(text, token),
    ensures
        replaced(text, token, value) == text,
{
    lemma_unmatched_tail(text, token, value, 0);
    assert(text.subrange(0, text.len() as int) == text);
}

proof fn lemma_unmatched_tail(text: Seq<char>, token: Seq<char>, value: Seq<char>, at: int)
    requires
        token.len() > 0,
        0 <= at <= text.len(),
        forall|p: int| at <= p ==> !occurs_at(text, token, p),
    ensures
        replaced_from(text, token, value, at) == text.subrange(at, text.len() as int),
    decreases text.len() - at,
{
    if at + token.len() > text.len() {
    } else {
        assert(!occurs_at(text, token, at));
        lemma_unmatched_tail(text, token, value, at + 1);
        assert(seq![text[at]] + text.subrange(at + 1, text.len() as int) == text.subrange(
            at,
            text.len() as int,
        ));
    }
}

/// Where the token first occurs at `first`, the text before it is kept, the
/// token gives way to the value, and the replacement goes on behind it.
pub proof fn lemma_replaced_at_first_occurrence(
    text: Seq<char>,
    token: Seq<char>,
    value: Seq<char>,
    first: int,
)
    requires
        token.len() > 0,
        occurs_at(text, token, first),
        forall|p: int| 0 <= p < first ==> !occurs_at(text, token, p),
    ensures
        replaced(text, token, value) == text.take(first) + value + replaced(
            text.skip(first + token.len()),
            token,
            value,
        ),
{
    lemma_kept_until_occurrence(text, token, value, 0, first);
    assert(text.subrange(0, first) == text.take(first));
    lemma_replaced_from_shift(text, token, value, first + token.len(), first + token.len());
}

proof fn lemma_kept_until_occurrence(
    text: Seq<char>,
    token: Seq<char>,
    value: Seq<char>,
    at: int,
    first: int,
)
    requires
        token.len() > 0,
        0 <= at <= first,
        occurs_at(text, token, first),
        forall|p: int| at <= p < first ==> !occurs_at(text, token, p),
    ensures
        replaced_from(text, token, value, at) == text.subrange(at, first) + value + replaced_from(
            text,
            token,
            value,
            first + token.len(),
        ),
    decreases first - at,
{
    if at == first {
        assert(text.subrange(at, first) + value == value);
    } else {
        assert(!occurs_at(text, token, at));
        lemma_kept_until_occurrence(text, token, value, at + 1, first);
        assert(seq![text[at]] + (text.subrange(at + 1, first) + value + replaced_from(
            text,
            token,
            value,
            first + token.len(),
        )) == text.subrange(at, first) + value + replaced_from(
            text,
            token,
            value,
            first + token.len(),
        ));
    }
}

/// Replacing from `at` on looks only at the text from `cut` on, where `cut <= at`.
proof fn lemma_replaced_from_shift(
    text: Seq<char>,
    token: Seq<char>,
    value: Seq<char>,
    at: int,
    cut: int,
)
    requires
        token.len() > 0,
        0 <= cut <= at <= text.len(),
    ensures
        replaced_from(text, token, value, at) == replaced_from(
            text.skip(cut),
            token,
            value,
            at - cut,
        ),
    decreases text.len() - at,
{
    let rest = text.skip(cut);
    if at + token.len() > text.len() {
        assert(text.subrange(at, text.len() as int) == rest.subrange(at - cut, rest.len() as int));
    } else {
        assert(text.subrange(at, at + token.len()) == rest.subrange(
            at - cut,
            at - cut + token.len(),
        ));
        if occurs_at(text, token, at) {
            lemma_replaced_from_shift(text, token, value, at + token.len(), cut);
        } else {
            lemma_replaced_from_shift(text, token, value, at + 1, cut);
        }
    }
}

/// Where the token occurs twice and no more, first at `first` and then at
/// `second` behind the first occurrence, both occurrences give way to the
/// value and the three stretches of text around them are kept as they are.
pub proof fn lemma_replaced_twice(
    text: Seq<char>,
    token: Seq<char>,
    value: Seq<char>,
    first: int,
    second: int,
)
    requires
        token.len() > 0,
        occurs_at(text, token, first),
        forall|p: int| 0 <= p < first ==> !occurs_at(text, token, p),
        occurs_at(text.skip(first + token.len()), token, second),
        forall|p: int|
            0 <= p < second ==> !(#[trigger] occurs_at(text.skip(first + token.len()), token, p)),
        !occurs_in(text.skip(first + token.len()).skip(second + token.len()), token),
    ensures
        replaced(text, token, value) == text.take(first) + value + text.skip(
            first + token.len(),
        ).take(second) + value + text.skip(first + token.len()).skip(second + token.len()),
{
    let rest = text.skip(first + token.len());
    lemma_replaced_at_first_occurrence(text, token, value, first);
    lemma_replaced_at_first_occurrence(rest, token, value, second);
    lemma_replaced_without_token(rest.skip(second + token.len()), token, value);
    assert(text.take(first) + value + (rest.take(second) + value + rest.skip(
        second + token.len(),
    )) =~= text.take(first) + value + rest.take(second) + value + rest.skip(
        second + token.len(),
    ));
}

/// What is left after trimming is a start of the string, and does not end
/// with the trimmed character.
pub proof fn lemma_trimmed_end(s: Seq<char>, c: char)
    ensures
        trimmed_end(s, c).len() <= s.len(),
        trimmed_end(s, c) == s.take(trimmed_end(s, c).len() as int),
        trimmed_end(s, c).len() > 0 ==> trimmed_end(s, c).last() != c,
        forall|i: int| trimmed_end(s, c).len() <= i < s.len() ==> s[i] == c,
    decreases s.len(),
{
    if s.len() > 0 && s.last() == c {
        lemma_trimmed_end(s.drop_last(), c);
        let t = trimmed_end(s.drop_last(), c);
        assert(s.drop_last().take(t.len() as int) == s.take(t.len() as int));
        assert forall|i: int| t.len() <= i < s.len() implies s[i] == c by {
            if i < s.len() - 1 {
                assert(s.drop_last()[i] == c);
            }
        }
    } else {
        assert(s.take(s.len() as int) == s);
    }
}

} // verus!
