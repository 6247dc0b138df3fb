//! Text as sequences of characters: conversion between strings and character
//! vectors, concatenation, and replacement of every occurrence of a pattern.

use vstd::prelude::*;
use vstd::string::StringExecFns;

verus! {

/// Whether `pattern` stands in `s` at position `at`.
pub open spec fn occurs_at(s: Seq<char>, pattern: Seq<char>, at: int) -> bool {
    &&& 0 <= at
    &&& at + pattern.len() <= s.len()
    &&& s.subrange(at, at + pattern.len()) == pattern
}

/// Whether `pattern` stands anywhere in `s`.
pub open spec fn occurs_in(s: Seq<char>, pattern: Seq<char>) -> bool {
    exists|at: int| occurs_at(s, pattern, at)
}

/// `filler` before each character of `s` and once more at the end.
pub open spec fn interleaved(s: Seq<char>, filler: Seq<char>) -> Seq<char>
    decreases s.len(),
{
    if s.len() == 0 {
        filler
    } else {
        filler + seq![s[0]] + interleaved(s.skip(1), filler)
    }
}

/// `s` with every occurrence of `from` replaced by `to`. Occurrences are
/// found from left to right and do not overlap; an empty `from` is found
/// before each character and at the end.
pub open spec fn replaced(s: Seq<char>, from: Seq<char>, to: Seq<char>) -> Seq<char>
    decreases s.len(),
{
    if from.len() == 0 {
        interleaved(s, to)
    } else if s.len() < from.len() {
        s
    } else if s.take(from.len() as int) == from {
        to + replaced(s.skip(from.len() as int), from, to)
    } else {
        seq![s[0]] + replaced(s.skip(1), from, to)
    }
}

/// The text of an optional string.
pub open spec fn optional_text(s: Option<String>) -> Option<Seq<char>> {
    match s {
        Some(text) => Some(text@),
        None => None,
    }
}

/// The views of the elements of `s`, in order.
pub open spec fn views<T: View>(s: Seq<T>) -> Seq<T::V> {
    Seq::new(s.len(), |i: int| s[i]@)
}

/// Appends one character to a string: the outside function is `String::push`,
/// which puts `c` behind the text that `s` holds and leaves that text as it was.
#[verifier::external_body]
pub(crate) fn push_char(s: &mut String, c: char)
    ensures
        final(s)@ == old(s)@.push(c),
{
    s.push(c)
}

/// The characters of `s`, in order.
pub fn chars_of(s: &str) -> (chars: Vec<char>)
    ensures
        chars@ == s@,
{
    let mut chars: Vec<char> = Vec::new();
    let source = s.chars();
    for c in it: source
        invariant
            it.seq() == s@,
            chars@ == it.seq().take(it.index()),
    {
        chars.push(c);
    }
    chars
}

/// The string that holds the characters of `chars`, in order.
pub fn string_of(chars: &Vec<char>) -> (s: String)
    ensures
        s@ == chars@,
{
    let mut s = String::new();
    let mut i: usize = 0;
    while i < chars.len()
        invariant
            i <= chars.len(),
            s@ == chars@.take(i as int),
        decreases chars.len() - i,
    {
        push_char(&mut s, chars[i]);
        i += 1;
    }
    s
}

/// `first`, then `second`, then `third`.
pub fn concat3(first: &str, second: &str, third: &str) -> (out: String)
    ensures
        out@ == first@ + second@ + third@,
{
    let mut out = String::new();
    out.append(first);
    out.append(second);
    out.append(third);
    out
}

/// Decides whether `pattern` stands in `s` at position `at`.
fn stands_at(s: &Vec<char>, pattern: &Vec<char>, at: usize) -> (found: bool)
    requires
        at + pattern.len() <= s.len(),
    ensures
        found == occurs_at(s@, pattern@, at as int),
{
    let mut j: usize = 0;
    while j < pattern.len()
        invariant
            j <= pattern.len(),
            at + pattern.len() <= s.len(),
            forall|k: int| 0 <= k < j ==> s@[at + k] == pattern@[k],
        decreases pattern.len() - j,
    {
        if s[at + j] != pattern[j] {
            return false;
        }
        j += 1;
    }
    assert(s@.subrange(at as int, at + pattern.len()) =~= pattern@);
    true
}

/// Appends the characters of `tail` to `out`.
fn extend_chars(out: &mut Vec<char>, tail: &Vec<char>)
    ensures
        final(out)@ == old(out)@ + tail@,
{
    let mut j: usize = 0;
    while j < tail.len()
        invariant
            j <= tail.len(),
            out@ == old(out)@ + tail@.take(j as int),
        decreases tail.len() - j,
    {
        out.push(tail[j]);
        j += 1;
    }
}

/// `filler` before each character of `s` and once more at the end.
fn interleave_chars(s: &Vec<char>, filler: &Vec<char>) -> (out: Vec<char>)
    ensures
        out@ == interleaved(s@, filler@),
{
    let mut out: Vec<char> = Vec::new();
    let mut i: usize = 0;
    assert(s@.skip(0) =~= s@ && out@ + interleaved(s@, filler@) =~= interleaved(s@, filler@));
    while i < s.len()
        invariant
            i <= s.len(),
            interleaved(s@, filler@) == out@ + interleaved(s@.skip(i as int), filler@),
        decreases s.len() - i,
    {
        proof {
            let rest = s@.skip(i as int);
            assert(rest.skip(1) =~= s@.skip(i + 1));
        }
        extend_chars(&mut out, filler);
        out.push(s[i]);
        i += 1;
    }
    extend_chars(&mut out, filler);
    out
}

/// The characters of `s` with every occurrence of `from` replaced by `to`.
pub fn replace_chars(s: &Vec<char>, from: &Vec<char>, to: &Vec<char>) -> (out: Vec<char>)
    ensures
        out@ == replaced(s@, from@, to@),
{
    if from.len() == 0 {
        return interleave_chars(s, to);
    }
    let mut out: Vec<char> = Vec::new();
    let mut i: usize = 0;
    assert(s@.skip(0) =~= s@ && out@ + replaced(s@, from@, to@) =~= replaced(s@, from@, to@));
    while i < s.len()
        invariant
            i <= s.len(),
            from.len() > 0,
            replaced(s@, from@, to@) == out@ + replaced(s@.skip(i as int), from@, to@),
        decreases s.len() - i,
    {
        let ghost rest = s@.skip(i as int);
        if s.len() - i >= from.len() && stands_at(s, from, i) {
            proof {
                assert(rest.take(from.len() as int) =~= s@.subrange(i as int, i + from.len()));
                assert(rest.skip(from.len() as int) =~= s@.skip(i + from.len()));
            }
            extend_chars(&mut out, to);
            i += from.len();
        } else {
            proof {
                assert(rest.skip(1) =~= s@.skip(i + 1));
                if rest.len() >= from.len() {
                    assert(rest.take(from.len() as int) =~= s@.subrange(i as int, i + from.len()));
                }
            }
            out.push(s[i]);
            i += 1;
        }
    }
    out
}

/// `s` with every occurrence of `from` replaced by `to`.
pub fn replace_all(s: &str, from: &str, to: &str) -> (out: String)
    ensures
        out@ == replaced(s@, from@, to@),
{
    let source = chars_of(s);
    let pattern = chars_of(from);
    let replacement = chars_of(to);
    let result = replace_chars(&source, &pattern, &replacement);
    string_of(&result)
}

/// An occurrence in a text without its first character is an occurrence in
/// the text, one position further.
proof fn lemma_occurrence_behind_first(s: Seq<char>, pattern: Seq<char>, at: int)
    requires
        s.len() > 0,
        occurs_at(s.skip(1), pattern, at),
    ensures
        occurs_at(s, pattern, at + 1),
{
    assert(s.skip(1).subrange(at, at + pattern.len()) =~= s.subrange(
        at + 1,
        at + 1 + pattern.len(),
    ));
}

/// Replacing a pattern that stands nowhere in a text changes nothing.
pub proof fn law_replaced_absent(s: Seq<char>, from: Seq<char>, to: Seq<char>)
    requires
        from.len() > 0,
        !occurs_in(s, from),
    ensures
        replaced(s, from, to) == s,
    decreases s.len(),
{
    if s.len() >= from.len() {
        assert(!occurs_at(s, from, 0));
        assert forall|at: int| !occurs_at(s.skip(1), from, at) by {
            if occurs_at(s.skip(1), from, at) {
                lemma_occurrence_behind_first(s, from, at);
            }
        }
        law_replaced_absent(s.skip(1), from, to);
    }
}

/// Where a pattern stands behind `before` and nowhere further to the left,
/// replacing leaves `before` as it is, puts the replacement for the pattern,
/// and goes on behind it.
pub proof fn law_replaced_first_occurrence(
    before: Seq<char>,
    from: Seq<char>,
    after: Seq<char>,
    to: Seq<char>,
)
    requires
        from.len() > 0,
        forall|at: int| 0 <= at < before.len() ==> !occurs_at(before + from + after, from, at),
    ensures
        replaced(before + from + after, from, to) == before + to + replaced(after, from, to),
    decreases before.len(),
{
    let s = before + from + after;
    if before.len() == 0 {
        assert(s.take(from.len() as int) =~= from);
        assert(s.skip(from.len() as int) =~= after);
    } else {
        assert(!occurs_at(s, from, 0));
        let shorter = before.skip(1);
        assert(s.skip(1) =~= shorter + from + after);
        assert forall|at: int| 0 <= at < shorter.len() implies !occurs_at(
            shorter + from + after,
            from,
            at,
        ) by {
            if occurs_at(s.skip(1), from, at) {
                lemma_occurrence_behind_first(s, from, at);
            }
        }
        law_replaced_first_occurrence(shorter, from, after, to);
    }
}

/// Where a pattern stands in a text once, between `before` and `after`,
/// replacing it puts the replacement in its place and changes nothing else.
pub proof fn law_replaced_single_occurrence(
    before: Seq<char>,
    from: Seq<char>,
    after: Seq<char>,
    to: Seq<char>,
)
    requires
        from.len() > 0,
        forall|at: int| 0 <= at < before.len() ==> !occurs_at(before + from + after, from, at),
        !occurs_in(after, from),
    ensures
        replaced(before + from + after, from, to) == before + to + after,
{
    law_replaced_first_occurrence(before, from, after, to);
    law_replaced_absent(after, from, to);
}

} // verus!
