//! Selectors end at the opening brace. Whatever the selectors of a block
//! are, they are read from the text before its first brace, and nothing
//! after that brace bears on them.

use vstd::prelude::*;
use crate::grammar::{
    after_selector, begun, ends_selector, identifier, lemma_after_selector_shortens,
    lemma_selector_part_shortens, selector, selector_group, selector_list, selector_part,
    selector_parts, tag_name, Compound,
};
use crate::text::{
    after_one, after_run, all_of, before_separator, ident_chars, is_ident_start, lemma_span_len,
    lemma_span_len_is, run, spaces, span_len,
};

verus! {

/// Everything but an opening brace.
pub open spec fn not_brace() -> spec_fn(char) -> bool {
    |c: char| c != '{'
}

/// Where the first opening brace of `s` stands; the length of `s` if it has
/// none.
pub open spec fn brace_at(s: Seq<char>) -> nat {
    span_len(s, not_brace())
}

/// Whether `s` has an opening brace.
pub open spec fn has_brace(s: Seq<char>) -> bool {
    brace_at(s) < s.len()
}

/// Whether `left` is what is left of `s` after some of the characters
/// before its first brace.
pub open spec fn left_before_brace(left: Seq<char>, s: Seq<char>) -> bool {
    &&& left.len() <= s.len()
    &&& s.len() - left.len() <= brace_at(s)
    &&& left == s.skip(s.len() - left.len())
}

/// What a reading of `s` gives is the same when more text follows `s`, it
/// leaves the same and that text, and it stops before the first brace.
pub open spec fn reads_alike<T>(short: (T, Seq<char>), long: (T, Seq<char>), s: Seq<char>, more: Seq<char>) -> bool {
    &&& long.0 == short.0
    &&& long.1 == short.1 + more
    &&& left_before_brace(short.1, s)
}

/// Dropping characters before the first brace keeps the brace.
pub proof fn lemma_skip_before_brace(s: Seq<char>, more: Seq<char>, k: int)
    requires
        has_brace(s),
        0 <= k <= brace_at(s),
    ensures
        has_brace(s.skip(k)),
        brace_at(s.skip(k)) == brace_at(s) - k,
        left_before_brace(s.skip(k), s),
        (s + more).skip(k) == s.skip(k) + more,
{
    let t = s.skip(k);
    let n = brace_at(s) as int;
    lemma_span_len(s, not_brace());
    assert forall|i: int| 0 <= i < n - k implies not_brace()(#[trigger] t[i]) by {
        assert(t[i] == s[i + k]);
    }
    assert(t[n - k] == s[n]);
    lemma_span_len_is(t, not_brace(), n - k);
    assert((s + more).skip(k) =~= s.skip(k) + more);
}

/// What is left before the brace has the brace.
pub proof fn lemma_left_has_brace(left: Seq<char>, s: Seq<char>)
    requires
        has_brace(s),
        left_before_brace(left, s),
    ensures
        has_brace(left),
{
    lemma_skip_before_brace(s, Seq::empty(), s.len() - left.len());
}

/// What is left of what is left, is left.
pub proof fn lemma_left_of_left(last: Seq<char>, left: Seq<char>, s: Seq<char>)
    requires
        has_brace(s),
        left_before_brace(left, s),
        left_before_brace(last, left),
    ensures
        left_before_brace(last, s),
        has_brace(left),
        has_brace(last),
{
    let k = s.len() - left.len();
    lemma_skip_before_brace(s, Seq::empty(), k);
    let j = left.len() - last.len();
    lemma_skip_before_brace(left, Seq::empty(), j);
    assert(s.skip(k).skip(j) =~= s.skip(k + j));
}

/// A run of characters that are no braces stops before the first brace, and
/// is the same when more text follows.
pub proof fn lemma_run_alike(s: Seq<char>, more: Seq<char>, p: spec_fn(char) -> bool)
    requires
        has_brace(s),
        !p('{'),
    ensures
        span_len(s, p) <= brace_at(s),
        run(s + more, p) == run(s, p),
        after_run(s + more, p) == after_run(s, p) + more,
        left_before_brace(after_run(s, p), s),
        has_brace(after_run(s, p)),
{
    let n = span_len(s, p) as int;
    lemma_span_len(s, p);
    lemma_span_len(s, not_brace());
    if n > brace_at(s) {
        assert(p(s[brace_at(s) as int]));
    }
    let long = s + more;
    assert forall|i: int| 0 <= i < n implies p(#[trigger] long[i]) by {
        assert(long[i] == s[i]);
    }
    assert(long[n] == s[n]);
    lemma_span_len_is(long, p, n);
    assert(long.take(n) =~= s.take(n));
    lemma_skip_before_brace(s, more, n);
}

/// An identifier is read alike.
pub proof fn lemma_identifier_alike(s: Seq<char>, more: Seq<char>)
    requires
        has_brace(s),
    ensures
        reads_alike(identifier(s), identifier(s + more), s, more),
{
    assert((s + more)[0] == s[0]);
    if is_ident_start(s[0]) {
        lemma_run_alike(s, more, ident_chars());
    } else {
        lemma_skip_before_brace(s, more, 0);
        assert(s.skip(0) == s);
    }
}

/// One part of a selector is read alike.
pub proof fn lemma_selector_part_alike(gathered: Compound, s: Seq<char>, more: Seq<char>)
    requires
        has_brace(s),
        !ends_selector(s[0]),
    ensures
        reads_alike(selector_part(gathered, s), selector_part(gathered, s + more), s, more),
{
    assert((s + more)[0] == s[0]);
    lemma_span_len(s, not_brace());
    if s[0] == '#' || s[0] == '.' {
        lemma_skip_before_brace(s, more, 1);
        lemma_identifier_alike(s.skip(1), more);
        lemma_left_of_left(identifier(s.skip(1)).1, s.skip(1), s);
    } else {
        lemma_run_alike(s, more, before_separator());
    }
}

/// The parts of a selector are read alike.
pub proof fn lemma_selector_parts_alike(gathered: Compound, s: Seq<char>, more: Seq<char>)
    requires
        has_brace(s),
    ensures
        reads_alike(selector_parts(gathered, s), selector_parts(gathered, s + more), s, more),
    decreases s.len(),
{
    assert((s + more)[0] == s[0]);
    if ends_selector(s[0]) {
        lemma_skip_before_brace(s, more, 0);
        assert(s.skip(0) == s);
    } else {
        lemma_selector_part_shortens(gathered, s);
        lemma_selector_part_alike(gathered, s, more);
        let (next, rest) = selector_part(gathered, s);
        lemma_left_has_brace(rest, s);
        lemma_selector_parts_alike(next, rest, more);
        lemma_left_of_left(selector_parts(next, rest).1, rest, s);
    }
}

/// A tag name is read alike.
pub proof fn lemma_tag_name_alike(s: Seq<char>, more: Seq<char>)
    requires
        has_brace(s),
    ensures
        reads_alike(tag_name(s), tag_name(s + more), s, more),
{
    assert((s + more)[0] == s[0]);
    lemma_identifier_alike(s, more);
}

/// A selector is read alike.
pub proof fn lemma_selector_alike(s: Seq<char>, more: Seq<char>)
    requires
        has_brace(s),
    ensures
        reads_alike(selector(s), selector(s + more), s, more),
{
    lemma_run_alike(s, more, spaces());
    let trimmed = after_run(s, spaces());
    lemma_tag_name_alike(trimmed, more);
    let (tag, after_tag) = tag_name(trimmed);
    lemma_left_of_left(after_tag, trimmed, s);
    let start = begun(tag);
    lemma_selector_parts_alike(start, after_tag, more);
    lemma_left_of_left(selector_parts(start, after_tag).1, after_tag, s);
}

/// What is left after one selector of a group is left alike.
pub proof fn lemma_after_selector_alike(s: Seq<char>, more: Seq<char>)
    requires
        has_brace(s),
    ensures
        after_selector(s + more) == after_selector(s) + more,
        left_before_brace(after_selector(s), s),
        has_brace(after_selector(s)),
{
    lemma_selector_alike(s, more);
    let after = selector(s).1;
    lemma_left_has_brace(after, s);
    lemma_run_alike(after, more, spaces());
    let rest = after_run(after, spaces());
    lemma_left_of_left(rest, after, s);
    assert((rest + more)[0] == rest[0]);
    lemma_span_len(rest, not_brace());
    if rest[0] == ',' {
        lemma_skip_before_brace(rest, more, 1);
        lemma_left_of_left(rest.skip(1), rest, s);
    }
}

/// The selectors of a list are read alike, and what they leave begins with
/// the brace.
pub proof fn lemma_selector_list_alike(s: Seq<char>, more: Seq<char>)
    requires
        has_brace(s),
    ensures
        reads_alike(selector_list(s), selector_list(s + more), s, more),
        selector_list(s).1 == s.skip(brace_at(s) as int),
    decreases s.len(),
{
    assert((s + more)[0] == s[0]);
    if s[0] == '{' {
        lemma_skip_before_brace(s, more, 0);
        assert(s.skip(0) == s);
    } else {
        lemma_after_selector_shortens(s);
        lemma_selector_alike(s, more);
        lemma_after_selector_alike(s, more);
        let next = after_selector(s);
        lemma_selector_list_alike(next, more);
        lemma_left_of_left(selector_list(next).1, next, s);
        let k = s.len() - next.len();
        lemma_skip_before_brace(s, more, k);
        assert(s.skip(k).skip(brace_at(next) as int) =~= s.skip(brace_at(s) as int));
    }
}

/// The selectors of a block are those of the text before its first brace,
/// and what is left is the text after that brace.
pub proof fn lemma_selectors_end_at_brace(before: Seq<char>, after: Seq<char>)
    requires
        all_of(before, not_brace()),
    ensures
        selector_group(before + (seq!['{'] + after)) == (
            selector_group(before + seq!['{']).0,
            after,
        ),
{
    let s = before + seq!['{'];
    assert forall|i: int| 0 <= i < before.len() implies not_brace()(#[trigger] s[i]) by {
        assert(s[i] == before[i]);
    }
    lemma_span_len_is(s, not_brace(), before.len() as int);
    lemma_selector_list_alike(s, after);
    assert(s + after =~= before + (seq!['{'] + after));
    assert(s.skip(before.len() as int) =~= seq!['{']);
    assert(after_one(seq!['{'] + after) =~= after);
}

} // verus!
