//! Characters and runs of characters: the character classes of the stylesheet
//! grammar, the longest run accepted by a predicate, and the few things taken
//! from the standard library without proof.

use vstd::prelude::*;

verus! {

/// The characters with the Unicode property `White_Space`.
pub open spec fn is_space(c: char) -> bool {
    ||| c == ' '
    ||| '\u{9}' <= c <= '\u{d}'
    ||| c == '\u{85}'
    ||| c == '\u{a0}'
    ||| c == '\u{1680}'
    ||| '\u{2000}' <= c <= '\u{200a}'
    ||| c == '\u{2028}'
    ||| c == '\u{2029}'
    ||| c == '\u{202f}'
    ||| c == '\u{205f}'
    ||| c == '\u{3000}'
}

/// An upper-case ASCII letter.
pub open spec fn is_upper(c: char) -> bool {
    'A' <= c <= 'Z'
}

/// A lower-case ASCII letter.
pub open spec fn is_lower(c: char) -> bool {
    'a' <= c <= 'z'
}

/// A character outside ASCII.
pub open spec fn is_beyond_ascii(c: char) -> bool {
    c > '\u{7f}'
}

/// A character that may begin an identifier: an ASCII letter, an underscore,
/// or any character outside ASCII.
pub open spec fn is_ident_start(c: char) -> bool {
    is_upper(c) || is_lower(c) || is_beyond_ascii(c) || c == '_'
}

/// A character that may continue an identifier: one that may begin it, an
/// ASCII digit, or a hyphen.
pub open spec fn is_ident_char(c: char) -> bool {
    is_ident_start(c) || '0' <= c <= '9' || c == '-'
}

/// The length of the longest prefix of `s` whose characters all satisfy `p`.
pub open spec fn span_len(s: Seq<char>, p: spec_fn(char) -> bool) -> nat
    decreases s.len(),
{
    if s.len() > 0 && p(s[0]) {
        1 + span_len(s.skip(1), p)
    } else {
        0
    }
}

/// `span_len` is a length within `s`; every character before it satisfies
/// `p`, and the character at it, if there is one, does not.
pub proof fn lemma_span_len(s: Seq<char>, p: spec_fn(char) -> bool)
    ensures
        span_len(s, p) <= s.len(),
        forall|i: int| 0 <= i < span_len(s, p) ==> p(#[trigger] s[i]),
        span_len(s, p) < s.len() ==> !p(s[span_len(s, p) as int]),
    decreases s.len(),
{
    if s.len() > 0 && p(s[0]) {
        let t = s.skip(1);
        lemma_span_len(t, p);
        assert forall|i: int| 0 <= i < span_len(s, p) implies p(#[trigger] s[i]) by {
            if i > 0 {
                assert(s[i] == t[i - 1]);
            }
        }
        if span_len(s, p) < s.len() {
            assert(s[span_len(s, p) as int] == t[span_len(t, p) as int]);
        }
    }
}

/// Only one length has the properties that `lemma_span_len` gives.
pub proof fn lemma_span_len_is(s: Seq<char>, p: spec_fn(char) -> bool, n: int)
    requires
        0 <= n <= s.len(),
        forall|i: int| 0 <= i < n ==> p(#[trigger] s[i]),
        n < s.len() ==> !p(s[n]),
    ensures
        span_len(s, p) == n,
    decreases s.len(),
{
    if n > 0 {
        let t = s.skip(1);
        assert(p(s[0]));
        assert forall|i: int| 0 <= i < n - 1 implies p(#[trigger] t[i]) by {
            assert(t[i] == s[i + 1]);
        }
        lemma_span_len_is(t, p, n - 1);
    }
}

/// The part of `s` that `span_len` measures.
pub open spec fn run(s: Seq<char>, p: spec_fn(char) -> bool) -> Seq<char> {
    s.take(span_len(s, p) as int)
}

/// What is left of `s` after `run`.
pub open spec fn after_run(s: Seq<char>, p: spec_fn(char) -> bool) -> Seq<char> {
    s.skip(span_len(s, p) as int)
}

/// `s` without its first character, if it has one.
pub open spec fn after_one(s: Seq<char>) -> Seq<char> {
    if s.len() > 0 {
        s.skip(1)
    } else {
        s
    }
}

/// The first character of `s`, if it has one.
pub open spec fn first_of(s: Seq<char>) -> Option<char> {
    if s.len() > 0 {
        Some(s[0])
    } else {
        None
    }
}

/// White space.
pub open spec fn spaces() -> spec_fn(char) -> bool {
    |c: char| is_space(c)
}

/// The characters of an identifier.
pub open spec fn ident_chars() -> spec_fn(char) -> bool {
    |c: char| is_ident_char(c)
}

/// Everything but a colon: the characters of a property name.
pub open spec fn before_colon() -> spec_fn(char) -> bool {
    |c: char| c != ':'
}

/// Everything but a semicolon, a line feed and a closing brace: the
/// characters of a value.
pub open spec fn value_chars() -> spec_fn(char) -> bool {
    |c: char| c != ';' && c != '\n' && c != '}'
}

/// Everything but a comma and an opening brace: what is passed over when a
/// selector holds something that is not understood.
pub open spec fn before_separator() -> spec_fn(char) -> bool {
    |c: char| c != ',' && c != '{'
}

/// A text split in two is split at the end of its run, if the first part
/// satisfies `p` throughout and the second does not begin with such a
/// character.
pub proof fn lemma_split_is_run(whole: Seq<char>, taken: Seq<char>, rest: Seq<char>, p: spec_fn(char) -> bool)
    requires
        whole == taken + rest,
        forall|i: int| 0 <= i < taken.len() ==> p(#[trigger] taken[i]),
        rest.len() > 0 ==> !p(rest[0]),
    ensures
        taken == run(whole, p),
        rest == after_run(whole, p),
{
    let n = taken.len() as int;
    assert forall|i: int| 0 <= i < n implies p(#[trigger] whole[i]) by {
        assert(whole[i] == taken[i]);
    }
    if n < whole.len() {
        assert(whole[n] == rest[0]);
    }
    lemma_span_len_is(whole, p, n);
    assert(whole.take(n) =~= taken);
    assert(whole.skip(n) =~= rest);
}

/// Whether every character of `s` satisfies `p`.
pub open spec fn all_of(s: Seq<char>, p: spec_fn(char) -> bool) -> bool {
    forall|i: int| 0 <= i < s.len() ==> p(#[trigger] s[i])
}

/// A run goes through a first part that satisfies `p` throughout, and on
/// into what follows.
pub proof fn lemma_run_of_joined(first: Seq<char>, then: Seq<char>, p: spec_fn(char) -> bool)
    requires
        all_of(first, p),
    ensures
        span_len(first + then, p) == first.len() + span_len(then, p),
        run(first + then, p) == first + run(then, p),
        after_run(first + then, p) == after_run(then, p),
{
    let whole = first + then;
    let n = first.len() + span_len(then, p);
    lemma_span_len(then, p);
    assert forall|i: int| 0 <= i < n implies p(#[trigger] whole[i]) by {
        if i < first.len() {
            assert(whole[i] == first[i]);
        } else {
            assert(whole[i] == then[i - first.len()]);
        }
    }
    if n < whole.len() {
        assert(whole[n as int] == then[span_len(then, p) as int]);
    }
    lemma_span_len_is(whole, p, n as int);
    assert(whole.take(n as int) =~= first + then.take(span_len(then, p) as int));
    assert(whole.skip(n as int) =~= then.skip(span_len(then, p) as int));
}

/// A run ends where a first part that satisfies `p` throughout is followed
/// by a character that does not.
pub proof fn lemma_run_is_first(first: Seq<char>, then: Seq<char>, p: spec_fn(char) -> bool)
    requires
        all_of(first, p),
        then.len() > 0 ==> !p(then[0]),
    ensures
        run(first + then, p) == first,
        after_run(first + then, p) == then,
{
    lemma_split_is_run(first + then, first, then, p);
}

/// What `str::to_lowercase` returns for a string with the characters `s`.
pub uninterp spec fn lowercase(s: Seq<char>) -> Seq<char>;

/// Whether `char::is_numeric` holds of `c`.
pub uninterp spec fn counts_as_numeric(c: char) -> bool;

/// `str::to_lowercase` is believed to return the same characters for the
/// same characters; they go by the name `lowercase`, and nothing more is
/// claimed of them.
pub assume_specification[ str::to_lowercase ](s: &str) -> (lowered: String)
    ensures
        lowered@ == lowercase(s@),
;

/// `char::is_numeric` is believed to give the same answer for the same
/// character; it goes by the name `counts_as_numeric`, and nothing more is
/// claimed of it.
pub assume_specification[ char::is_numeric ](c: char) -> (numeric: bool)
    ensures
        numeric == counts_as_numeric(c),
;

/// `String::push` is believed to append the character to the end of the
/// string and to change nothing else.
pub assume_specification[ String::push ](s: &mut String, ch: char)
    ensures
        final(s)@ == old(s)@.push(ch),
;

/// Whether `c` is white space.
pub fn is_whitespace(c: char) -> (space: bool)
    ensures
        space == is_space(c),
{
    c == ' ' || ('\u{9}' <= c && c <= '\u{d}') || c == '\u{85}' || c == '\u{a0}' || c
        == '\u{1680}' || ('\u{2000}' <= c && c <= '\u{200a}') || c == '\u{2028}' || c
        == '\u{2029}' || c == '\u{202f}' || c == '\u{205f}' || c == '\u{3000}'
}

/// The characters of `s`, in order.
pub fn chars_of(s: &str) -> (chars: Vec<char>)
    ensures
        chars@ == s@,
{
    let mut chars: Vec<char> = Vec::new();
    for c in it: s.chars()
        invariant
            chars@ == it.seq().take(it.index() as int),
            it.seq() == s@,
    {
        chars.push(c);
    }
    chars
}

/// Whether `chars` spells `word`.
pub fn spells(chars: &Vec<char>, word: &str) -> (same: bool)
    ensures
        same == (chars@ == word@),
{
    let mut n: usize = 0;
    for c in it: word.chars()
        invariant
            it.seq() == word@,
            n == it.index(),
            n <= chars@.len(),
            chars@.take(n as int) == word@.take(n as int),
    {
        if n >= chars.len() || chars[n] != c {
            assert(chars@ != word@) by {
                if n < chars@.len() {
                    assert(chars@[n as int] != word@[n as int]);
                }
            }
            return false;
        }
        n = n + 1;
        assert(chars@.take(n as int) == chars@.take(n - 1).push(chars@[n - 1]));
        assert(word@.take(n as int) == word@.take(n - 1).push(word@[n - 1]));
    }
    assert(word@.take(n as int) == word@);
    proof {
        if n == chars@.len() {
            assert(chars@.take(n as int) == chars@);
        }
    }
    n == chars.len()
}

} // verus!
