//! What the parser reads, as functions on text: each takes the text that is
//! left and gives what is read from its start, and the text left after it.

use vstd::prelude::*;
use crate::color::{color_of, lemma_color_in_range};
use crate::css::{DeclarationView, RuleView, SelectorView, SimpleSelectorView, StylesheetView, ValueView};
use crate::length::length_of;
use crate::text::{
    after_one, after_run, before_colon, before_separator, ident_chars, is_ident_start, is_space,
    lemma_span_len, lowercase, run, spaces, span_len, value_chars,
};

verus! {

/// The identifier at the start of `s`, in lower case, and the text after it.
/// Where `s` does not begin as an identifier does, nothing is read.
pub open spec fn identifier(s: Seq<char>) -> (Seq<char>, Seq<char>) {
    if s.len() > 0 && is_ident_start(s[0]) {
        (lowercase(run(s, ident_chars())), after_run(s, ident_chars()))
    } else {
        (Seq::empty(), s)
    }
}

/// A name as an id: none if the name is empty.
pub open spec fn id_of(name: Seq<char>) -> Option<Seq<char>> {
    if name.len() == 0 {
        None
    } else {
        Some(name)
    }
}

/// A simple selector while it is being read: what has been gathered, and
/// whether a second id has been met, after which the selector has no id.
pub struct Compound {
    pub selector: SimpleSelectorView,
    pub id_conflict: bool,
}

/// Whether `c` ends a simple selector.
pub open spec fn ends_selector(c: char) -> bool {
    c == ',' || c == '{' || is_space(c)
}

/// `gathered` after one more id, which may be none. The first id is kept;
/// one that comes when there is an id already, or after that has happened
/// once, leaves the selector without an id for good.
pub open spec fn with_id(gathered: Compound, id: Option<Seq<char>>) -> Compound {
    if gathered.selector.id is Some || gathered.id_conflict {
        Compound {
            selector: SimpleSelectorView { id: None, ..gathered.selector },
            id_conflict: true,
        }
    } else {
        Compound { selector: SimpleSelectorView { id, ..gathered.selector }, id_conflict: false }
    }
}

/// `gathered` after one more class; an empty name is no class.
pub open spec fn with_class(gathered: Compound, name: Seq<char>) -> Compound {
    if name.len() > 0 {
        Compound {
            selector: SimpleSelectorView {
                classes: gathered.selector.classes.push(name),
                ..gathered.selector
            },
            id_conflict: gathered.id_conflict,
        }
    } else {
        gathered
    }
}

/// One part of a simple selector at the start of `s`, which is not empty: an
/// id after `#`, a class after `.`, or, passed over, whatever else stands
/// before the next comma or brace.
pub open spec fn selector_part(gathered: Compound, s: Seq<char>) -> (Compound, Seq<char>) {
    if s[0] == '#' {
        let (name, rest) = identifier(s.skip(1));
        (with_id(gathered, id_of(name)), rest)
    } else if s[0] == '.' {
        let (name, rest) = identifier(s.skip(1));
        (with_class(gathered, name), rest)
    } else {
        (gathered, after_run(s, before_separator()))
    }
}

/// The parts of a simple selector at the start of `s`, up to the end of the
/// text or a character that ends the selector.
pub open spec fn selector_parts(gathered: Compound, s: Seq<char>) -> (Compound, Seq<char>)
    decreases s.len(),
{
    if s.len() == 0 || ends_selector(s[0]) {
        (gathered, s)
    } else {
        proof {
            lemma_selector_part_shortens(gathered, s);
        }
        let (next, rest) = selector_part(gathered, s);
        selector_parts(next, rest)
    }
}

/// The tag name at the start of `s`, if `s` begins as an identifier does.
pub open spec fn tag_name(s: Seq<char>) -> (Option<Seq<char>>, Seq<char>) {
    if s.len() > 0 && is_ident_start(s[0]) {
        (Some(identifier(s).0), identifier(s).1)
    } else {
        (None, s)
    }
}

/// A simple selector with a tag name, if any, and nothing else yet.
pub open spec fn begun(tag_name: Option<Seq<char>>) -> Compound {
    Compound {
        selector: SimpleSelectorView { tag_name, id: None, classes: Seq::empty() },
        id_conflict: false,
    }
}

/// The selector that was gathered: one that names nothing holds no simple
/// selector.
pub open spec fn gathered_selector(gathered: Compound) -> SelectorView {
    if gathered.selector.is_empty() {
        SelectorView { simple: Seq::empty() }
    } else {
        SelectorView { simple: seq![gathered.selector] }
    }
}

/// The selector at the start of `s`, after any white space: a tag name if
/// there is one, then ids and classes.
pub open spec fn selector(s: Seq<char>) -> (SelectorView, Seq<char>) {
    let (tag, after_tag) = tag_name(after_run(s, spaces()));
    let (gathered, rest) = selector_parts(begun(tag), after_tag);
    (gathered_selector(gathered), rest)
}

/// What is left after one selector of a group: the text after the selector,
/// without the white space that follows it and without one comma after that.
pub open spec fn after_selector(s: Seq<char>) -> Seq<char> {
    let rest = after_run(selector(s).1, spaces());
    if rest.len() > 0 && rest[0] == ',' {
        rest.skip(1)
    } else {
        rest
    }
}

/// The selectors at the start of `s`, up to the end of the text or an opening
/// brace. Selectors that name nothing are left out.
pub open spec fn selector_list(s: Seq<char>) -> (Seq<SelectorView>, Seq<char>)
    decreases s.len(),
{
    if s.len() == 0 || s[0] == '{' {
        (Seq::empty(), s)
    } else {
        proof {
            lemma_after_selector_shortens(s);
        }
        let first = selector(s).0;
        let (more, rest) = selector_list(after_selector(s));
        if first.simple.len() > 0 {
            (seq![first] + more, rest)
        } else {
            (more, rest)
        }
    }
}

/// The selectors of a block, and the text after the brace that opens it.
pub open spec fn selector_group(s: Seq<char>) -> (Seq<SelectorView>, Seq<char>) {
    let (selectors, rest) = selector_list(s);
    (selectors, after_one(rest))
}

/// Whether a property takes a colour.
pub open spec fn takes_color(property: Seq<char>) -> bool {
    ||| property == "background-color"@
    ||| property == "border-color"@
    ||| property == "color"@
}

/// Whether a property takes a length.
pub open spec fn takes_length(property: Seq<char>) -> bool {
    ||| property == "margin-right"@
    ||| property == "margin-left"@
    ||| property == "margin-bottom"@
    ||| property == "margin-top"@
    ||| property == "padding-right"@
    ||| property == "padding-left"@
    ||| property == "padding-bottom"@
    ||| property == "padding-top"@
    ||| property == "border-right-width"@
    ||| property == "border-left-width"@
    ||| property == "border-bottom-width"@
    ||| property == "border-top-width"@
    ||| property == "height"@
    ||| property == "width"@
}

/// The value of a property, from its text in lower case: a colour or a
/// length where the property takes one, and else the text as it is.
pub open spec fn value_of(property: Seq<char>, text: Seq<char>) -> ValueView {
    if takes_color(property) {
        ValueView::Color(color_of(text))
    } else if takes_length(property) {
        length_of(text)
    } else {
        ValueView::Other(text)
    }
}

/// The text of a declaration from its value on: `s` after white space, the
/// property name, one more character (the colon) and white space again.
pub open spec fn from_value(s: Seq<char>) -> Seq<char> {
    after_run(after_one(after_run(after_run(s, spaces()), before_colon())), spaces())
}

/// The text of a declaration after its value.
pub open spec fn from_value_end(s: Seq<char>) -> Seq<char> {
    after_run(from_value(s), value_chars())
}

/// The declaration that the start of `s` spells, whether or not it counts.
pub open spec fn declared(s: Seq<char>) -> DeclarationView {
    let property = lowercase(run(after_run(s, spaces()), before_colon()));
    let text = lowercase(run(from_value(s), value_chars()));
    DeclarationView { property, value: value_of(property, text) }
}

/// The declaration at the start of `s`, and the text after it and after the
/// white space that follows. The declaration counts if a semicolon ends it,
/// or if nothing but white space stands between it and a closing brace.
pub open spec fn declaration(s: Seq<char>) -> (Option<DeclarationView>, Seq<char>) {
    let end = from_value_end(s);
    if end.len() > 0 && end[0] == ';' {
        (Some(declared(s)), after_run(end.skip(1), spaces()))
    } else {
        let rest = after_run(end, spaces());
        if rest.len() > 0 && rest[0] == '}' {
            (Some(declared(s)), rest)
        } else {
            (None, rest)
        }
    }
}

/// The declarations at the start of `s`, up to the end of the text or a
/// closing brace where a declaration would begin.
pub open spec fn declaration_list(s: Seq<char>) -> (Seq<DeclarationView>, Seq<char>)
    decreases s.len(),
{
    if s.len() == 0 || s[0] == '}' {
        (Seq::empty(), s)
    } else {
        proof {
            lemma_declaration_shortens(s);
        }
        let (first, after_first) = declaration(s);
        let (more, rest) = declaration_list(after_first);
        match first {
            Some(counted) => (seq![counted] + more, rest),
            None => (more, rest),
        }
    }
}

/// The declarations of a block, and the text after the brace that closes it.
pub open spec fn declaration_block(s: Seq<char>) -> (Seq<DeclarationView>, Seq<char>) {
    let (declarations, rest) = declaration_list(s);
    (declarations, after_one(rest))
}

/// The rule at the start of `s`: a group of selectors, then a block of
/// declarations.
pub open spec fn rule(s: Seq<char>) -> (RuleView, Seq<char>) {
    let (selectors, body) = selector_group(s);
    let (declarations, rest) = declaration_block(body);
    (RuleView { selectors, declarations }, rest)
}

/// The rules that `s` spells: one after the other until nothing is left.
pub open spec fn rules(s: Seq<char>) -> Seq<RuleView>
    decreases s.len(),
{
    if s.len() == 0 {
        Seq::empty()
    } else {
        proof {
            lemma_rule_shortens(s);
        }
        seq![rule(s).0] + rules(rule(s).1)
    }
}

/// The style sheet that `s` spells.
pub open spec fn stylesheet(s: Seq<char>) -> StylesheetView {
    StylesheetView { rules: rules(s) }
}

/// What is left after a run is no longer than the text.
pub proof fn lemma_after_run_len(s: Seq<char>, p: spec_fn(char) -> bool)
    ensures
        after_run(s, p).len() == s.len() - span_len(s, p),
        run(s, p).len() == span_len(s, p),
        run(s, p) + after_run(s, p) == s,
{
    lemma_span_len(s, p);
    assert(run(s, p) + after_run(s, p) =~= s);
}

/// After white space has been passed over, there is none to pass over.
pub proof fn lemma_spaces_passed_once(s: Seq<char>)
    ensures
        after_run(after_run(s, spaces()), spaces()) == after_run(s, spaces()),
{
    let rest = after_run(s, spaces());
    lemma_span_len(s, spaces());
    if rest.len() > 0 {
        assert(rest[0] == s[span_len(s, spaces()) as int]);
    }
    assert(span_len(rest, spaces()) == 0);
    assert(rest.skip(0) == rest);
}

/// What is left after an identifier is no longer than the text, and shorter
/// where the text begins as an identifier does.
pub proof fn lemma_identifier_len(s: Seq<char>)
    ensures
        identifier(s).1.len() <= s.len(),
        s.len() > 0 && is_ident_start(s[0]) ==> identifier(s).1.len() < s.len(),
{
    lemma_after_run_len(s, ident_chars());
}

/// A part of a selector takes at least one character.
pub proof fn lemma_selector_part_shortens(gathered: Compound, s: Seq<char>)
    requires
        s.len() > 0,
        !ends_selector(s[0]),
    ensures
        selector_part(gathered, s).1.len() < s.len(),
{
    if s[0] == '#' || s[0] == '.' {
        lemma_identifier_len(s.skip(1));
    } else {
        lemma_after_run_len(s, before_separator());
    }
}

/// The parts of a selector leave no more than there was, and what they leave
/// is empty or begins with a character that ends the selector.
pub proof fn lemma_selector_parts_len(gathered: Compound, s: Seq<char>)
    ensures
        selector_parts(gathered, s).1.len() <= s.len(),
        selector_parts(gathered, s).1.len() > 0 ==> ends_selector(selector_parts(gathered, s).1[0]),
    decreases s.len(),
{
    if s.len() == 0 || ends_selector(s[0]) {
    } else {
        lemma_selector_part_shortens(gathered, s);
        let (next, rest) = selector_part(gathered, s);
        lemma_selector_parts_len(next, rest);
    }
}

/// A selector leaves no more than there was, and less unless the text is
/// empty or begins with a comma or an opening brace.
pub proof fn lemma_selector_len(s: Seq<char>)
    ensures
        selector(s).1.len() <= s.len(),
        s.len() > 0 && s[0] != ',' && s[0] != '{' ==> selector(s).1.len() < s.len(),
{
    let trimmed = after_run(s, spaces());
    lemma_after_run_len(s, spaces());
    lemma_span_len(s, spaces());
    lemma_identifier_len(trimmed);
    let (tag, after_tag) = tag_name(trimmed);
    let start = begun(tag);
    lemma_selector_parts_len(start, after_tag);
    if s.len() > 0 && s[0] != ',' && s[0] != '{' && trimmed.len() == s.len() {
        assert(trimmed == s);
        if !is_ident_start(s[0]) {
            assert(!is_space(s[0]));
            lemma_selector_part_shortens(start, s);
            lemma_selector_parts_len(selector_part(start, s).0, selector_part(start, s).1);
        }
    }
}

/// One selector of a group, with the comma after it, takes at least one
/// character where the text does not begin with an opening brace.
pub proof fn lemma_after_selector_shortens(s: Seq<char>)
    requires
        s.len() > 0,
        s[0] != '{',
    ensures
        after_selector(s).len() < s.len(),
{
    lemma_selector_len(s);
    lemma_after_run_len(selector(s).1, spaces());
    if s[0] == ',' {
        assert(span_len(s, spaces()) == 0);
        assert(after_run(s, spaces()) == s);
        assert(selector(s).1 == s);
    }
}

/// The selectors of a list leave no more than there was.
pub proof fn lemma_selector_list_len(s: Seq<char>)
    ensures
        selector_list(s).1.len() <= s.len(),
    decreases s.len(),
{
    if s.len() == 0 || s[0] == '{' {
    } else {
        lemma_after_selector_shortens(s);
        lemma_selector_list_len(after_selector(s));
    }
}

/// A declaration takes at least one character where the text does not begin
/// with a closing brace.
pub proof fn lemma_declaration_shortens(s: Seq<char>)
    requires
        s.len() > 0,
        s[0] != '}',
    ensures
        declaration(s).1.len() < s.len(),
{
    let trimmed = after_run(s, spaces());
    let colon = after_run(trimmed, before_colon());
    let value = after_run(after_one(colon), spaces());
    let end = after_run(value, value_chars());
    lemma_after_run_len(s, spaces());
    lemma_after_run_len(trimmed, before_colon());
    lemma_after_run_len(after_one(colon), spaces());
    lemma_after_run_len(value, value_chars());
    lemma_after_run_len(end, spaces());
    if end.len() > 0 {
        lemma_after_run_len(end.skip(1), spaces());
    }
    if end.len() == s.len() {
        assert(colon.len() == 0);
        assert(trimmed == s);
        lemma_span_len(s, before_colon());
    }
}

/// The declarations of a list leave no more than there was.
pub proof fn lemma_declaration_list_len(s: Seq<char>)
    ensures
        declaration_list(s).1.len() <= s.len(),
    decreases s.len(),
{
    if s.len() == 0 || s[0] == '}' {
    } else {
        lemma_declaration_shortens(s);
        lemma_declaration_list_len(declaration(s).1);
    }
}

/// A rule takes at least one character of a text that is not empty.
pub proof fn lemma_rule_shortens(s: Seq<char>)
    requires
        s.len() > 0,
    ensures
        rule(s).1.len() < s.len(),
{
    lemma_selector_list_len(s);
    if s[0] != '{' {
        lemma_after_selector_shortens(s);
        lemma_selector_list_len(after_selector(s));
    }
    lemma_declaration_list_len(selector_group(s).1);
}

/// Once a second id has been met, the selector has no id, whatever follows.
pub proof fn lemma_id_conflict_is_final(gathered: Compound, s: Seq<char>)
    requires
        gathered.id_conflict,
        gathered.selector.id is None,
    ensures
        selector_parts(gathered, s).0.id_conflict,
        selector_parts(gathered, s).0.selector.id is None,
    decreases s.len(),
{
    if s.len() == 0 || ends_selector(s[0]) {
    } else {
        lemma_selector_part_shortens(gathered, s);
        let (next, rest) = selector_part(gathered, s);
        lemma_id_conflict_is_final(next, rest);
    }
}

/// An id met while the selector has one leaves it without an id, whatever
/// follows.
pub proof fn lemma_second_id_leaves_none(gathered: Compound, s: Seq<char>)
    requires
        gathered.selector.id is Some,
        s.len() > 0,
        s[0] == '#',
    ensures
        selector_parts(gathered, s).0.selector.id is None,
{
    lemma_selector_part_shortens(gathered, s);
    let (next, rest) = selector_part(gathered, s);
    lemma_id_conflict_is_final(next, rest);
}

/// A selector holds no simple selector or one, and one that it holds names
/// something.
pub proof fn lemma_selector_is_simple(s: Seq<char>)
    ensures
        selector(s).0.simple.len() <= 1,
        selector(s).0.simple.len() == 1 ==> !selector(s).0.simple[0].is_empty(),
{
}

/// Every selector of a list holds one simple selector, which names
/// something.
pub proof fn lemma_selector_list_names(s: Seq<char>)
    ensures
        forall|i: int|
            0 <= i < selector_list(s).0.len() ==> {
                &&& (#[trigger] selector_list(s).0[i]).simple.len() == 1
                &&& !selector_list(s).0[i].simple[0].is_empty()
            },
    decreases s.len(),
{
    if s.len() == 0 || s[0] == '{' {
    } else {
        lemma_after_selector_shortens(s);
        lemma_selector_is_simple(s);
        lemma_selector_list_names(after_selector(s));
        let first = selector(s).0;
        let more = selector_list(after_selector(s)).0;
        let all = selector_list(s).0;
        assert forall|i: int| 0 <= i < all.len() implies {
            &&& (#[trigger] all[i]).simple.len() == 1
            &&& !all[i].simple[0].is_empty()
        } by {
            if first.simple.len() > 0 {
                if i > 0 {
                    assert(all[i] == more[i - 1]);
                }
            } else {
                assert(all[i] == more[i]);
            }
        }
    }
}

/// A property that takes neither a colour nor a length keeps the text of its
/// value as it is.
pub proof fn lemma_unknown_property_keeps_text(property: Seq<char>, text: Seq<char>)
    requires
        !takes_color(property),
        !takes_length(property),
    ensures
        value_of(property, text) == ValueView::Other(text),
{
}

/// Every value is well formed: a colour has its channels in range, the size
/// of a length has only digits.
pub proof fn lemma_value_is_well_formed(property: Seq<char>, text: Seq<char>)
    ensures
        value_of(property, text).wf(),
{
    lemma_color_in_range(text);
}

/// An empty text spells a style sheet without rules.
pub proof fn lemma_nothing_spells_no_rules()
    ensures
        stylesheet(Seq::empty()).rules.len() == 0,
{
}

} // verus!
