//! Style sheets as they are written, and the law that reading one gives
//! back what was written: one rule for each block, in the order of the text,
//! with its declarations in the order of the text.

use vstd::prelude::*;
use crate::css::{DeclarationView, RuleView};
use crate::grammar::{
    declaration, declaration_block, declaration_list, declared, from_value, from_value_end,
    lemma_spaces_passed_once, rule, rules, selector_group, stylesheet, value_of,
};
use crate::scope::{lemma_selectors_end_at_brace, not_brace};
use crate::text::{
    after_one, after_run, all_of, before_colon, is_space, lemma_run_is_first,
    lemma_run_of_joined, lowercase, spaces, value_chars,
};

verus! {

/// A declaration as it is written: a property name, a colon, a value and a
/// semicolon, with white space, if any, before the name, after the colon and
/// after the semicolon.
pub struct WrittenDeclaration {
    pub lead: Seq<char>,
    pub property: Seq<char>,
    pub gap: Seq<char>,
    pub value: Seq<char>,
    pub trail: Seq<char>,
}

impl WrittenDeclaration {
    /// The white space is white space. The name holds no colon and begins
    /// with neither white space nor a closing brace. The value holds no
    /// semicolon, line feed or closing brace, and does not begin with white
    /// space.
    pub open spec fn wf(self) -> bool {
        &&& all_of(self.lead, spaces())
        &&& all_of(self.gap, spaces())
        &&& all_of(self.trail, spaces())
        &&& all_of(self.property, before_colon())
        &&& self.property.len() > 0 ==> !is_space(self.property[0]) && self.property[0] != '}'
        &&& all_of(self.value, value_chars())
        &&& self.value.len() > 0 ==> !is_space(self.value[0])
    }

    /// The declaration from its name on, followed by `then`.
    pub open spec fn from_name(self, then: Seq<char>) -> Seq<char> {
        self.property + (seq![':'] + (self.gap + (self.value + (seq![';'] + (self.trail + then)))))
    }

    /// The text of the declaration, followed by `then`.
    pub open spec fn followed_by(self, then: Seq<char>) -> Seq<char> {
        self.lead + self.from_name(then)
    }

    /// What the declaration says: its name in lower case, and the value that
    /// the name takes from the text of the value in lower case.
    pub open spec fn meaning(self) -> DeclarationView {
        DeclarationView {
            property: lowercase(self.property),
            value: value_of(lowercase(self.property), lowercase(self.value)),
        }
    }
}

/// The texts of `declarations`, one after the other, followed by `then`.
pub open spec fn declarations_followed_by(
    declarations: Seq<WrittenDeclaration>,
    then: Seq<char>,
) -> Seq<char>
    decreases declarations.len(),
{
    if declarations.len() == 0 {
        then
    } else {
        declarations[0].followed_by(declarations_followed_by(declarations.skip(1), then))
    }
}

/// A block as it is written: the text of its selectors, an opening brace,
/// its declarations and a closing brace.
pub struct WrittenRule {
    pub selectors: Seq<char>,
    pub declarations: Seq<WrittenDeclaration>,
}

impl WrittenRule {
    /// The text of the selectors holds no opening brace, and every
    /// declaration is well formed.
    pub open spec fn wf(self) -> bool {
        &&& all_of(self.selectors, not_brace())
        &&& forall|i: int| 0 <= i < self.declarations.len() ==> (#[trigger] self.declarations[i]).wf()
    }

    /// The text of the block, followed by `then`.
    pub open spec fn followed_by(self, then: Seq<char>) -> Seq<char> {
        self.selectors + (seq!['{'] + declarations_followed_by(
            self.declarations,
            seq!['}'] + then,
        ))
    }

    /// What the block says: the selectors that its selector text spells, and
    /// what each of its declarations says, in their order.
    pub open spec fn meaning(self) -> RuleView {
        RuleView {
            selectors: selector_group(self.selectors + seq!['{']).0,
            declarations: self.declarations.map_values(|d: WrittenDeclaration| d.meaning()),
        }
    }
}

/// The texts of `blocks`, one after the other, followed by `then`.
pub open spec fn blocks_followed_by(blocks: Seq<WrittenRule>, then: Seq<char>) -> Seq<char>
    decreases blocks.len(),
{
    if blocks.len() == 0 {
        then
    } else {
        blocks[0].followed_by(blocks_followed_by(blocks.skip(1), then))
    }
}

/// The text of a style sheet of `blocks`: it ends with the closing brace of
/// the last one.
pub open spec fn sheet_text(blocks: Seq<WrittenRule>) -> Seq<char> {
    blocks_followed_by(blocks, Seq::empty())
}

/// A declaration that is read from its name on is read as what it says, and
/// what is left is what follows it, without white space at its start.
pub proof fn lemma_declaration_from_name(written: WrittenDeclaration, then: Seq<char>)
    requires
        written.wf(),
    ensures
        written.from_name(then).len() > 0,
        written.from_name(then)[0] != '}',
        !is_space(written.from_name(then)[0]),
        declaration(written.from_name(then)) == (
            Some(written.meaning()),
            after_run(then, spaces()),
        ),
{
    let s = written.from_name(then);
    let after_trail = written.trail + then;
    let at_semicolon = seq![';'] + after_trail;
    let at_value = written.value + at_semicolon;
    let at_gap = written.gap + at_value;
    let at_colon = seq![':'] + at_gap;
    assert(s == written.property + at_colon);
    assert(at_colon[0] == ':');
    assert(at_semicolon[0] == ';');
    if written.property.len() > 0 {
        assert(s[0] == written.property[0]);
    } else {
        assert(s[0] == ':');
    }
    if written.value.len() > 0 {
        assert(at_value[0] == written.value[0]);
    } else {
        assert(at_value[0] == ';');
    }
    // No white space stands before the name.
    lemma_run_is_first(Seq::empty(), s, spaces());
    assert(Seq::<char>::empty() + s =~= s);
    assert(after_run(s, spaces()) == s);
    // The name ends at the colon.
    lemma_run_is_first(written.property, at_colon, before_colon());
    assert(after_one(at_colon) =~= at_gap);
    // The white space after the colon ends at the value.
    lemma_run_is_first(written.gap, at_value, spaces());
    assert(from_value(s) == at_value);
    // The value ends at the semicolon.
    lemma_run_is_first(written.value, at_semicolon, value_chars());
    assert(from_value_end(s) == at_semicolon);
    assert(declared(s) == written.meaning());
    assert(at_semicolon.skip(1) =~= after_trail);
    lemma_run_of_joined(written.trail, then, spaces());
}

/// A declaration is read from its first character as it is read from its
/// name.
pub proof fn lemma_declaration_written(written: WrittenDeclaration, then: Seq<char>)
    requires
        written.wf(),
    ensures
        written.followed_by(then).len() > 0,
        written.followed_by(then)[0] != '}',
        declaration(written.followed_by(then)) == (
            Some(written.meaning()),
            after_run(then, spaces()),
        ),
        after_run(written.followed_by(then), spaces()) == written.from_name(then),
{
    let s = written.followed_by(then);
    let named = written.from_name(then);
    lemma_declaration_from_name(written, then);
    if written.lead.len() > 0 {
        assert(s[0] == written.lead[0]);
    } else {
        assert(s =~= named);
    }
    lemma_run_is_first(written.lead, named, spaces());
    lemma_spaces_passed_once(s);
    assert(from_value(s) == from_value(named));
    assert(declared(s) == declared(named));
}

/// The declarations of a list, read after the white space before them, are
/// read as what they say, up to the closing brace that follows them.
pub proof fn lemma_declarations_written(declarations: Seq<WrittenDeclaration>, then: Seq<char>)
    requires
        forall|i: int| 0 <= i < declarations.len() ==> (#[trigger] declarations[i]).wf(),
    ensures
        declaration_list(
            after_run(declarations_followed_by(declarations, seq!['}'] + then), spaces()),
        ) == (declarations.map_values(|d: WrittenDeclaration| d.meaning()), seq!['}'] + then),
    decreases declarations.len(),
{
    let meaning = |d: WrittenDeclaration| d.meaning();
    let closing = seq!['}'] + then;
    let s = declarations_followed_by(declarations, closing);
    assert(closing[0] == '}');
    if declarations.len() == 0 {
        lemma_run_is_first(Seq::empty(), closing, spaces());
        assert(Seq::<char>::empty() + closing =~= closing);
        assert(declarations.map_values(meaning) =~= Seq::empty());
    } else {
        let first = declarations[0];
        let others = declarations.skip(1);
        let after_first = declarations_followed_by(others, closing);
        assert(first.wf());
        assert forall|i: int| 0 <= i < others.len() implies (#[trigger] others[i]).wf() by {
            assert(others[i] == declarations[i + 1]);
        }
        lemma_declaration_written(first, after_first);
        lemma_declaration_from_name(first, after_first);
        lemma_declarations_written(others, then);
        assert(declarations.map_values(meaning) =~= seq![first.meaning()] + others.map_values(
            meaning,
        ));
    }
}

/// The declarations of a block are read as what they say, and what is left
/// is what follows the closing brace.
pub proof fn lemma_block_written(declarations: Seq<WrittenDeclaration>, then: Seq<char>)
    requires
        forall|i: int| 0 <= i < declarations.len() ==> (#[trigger] declarations[i]).wf(),
    ensures
        declaration_block(declarations_followed_by(declarations, seq!['}'] + then)) == (
            declarations.map_values(|d: WrittenDeclaration| d.meaning()),
            then,
        ),
{
    let meaning = |d: WrittenDeclaration| d.meaning();
    let closing = seq!['}'] + then;
    assert(closing[0] == '}');
    assert(after_one(closing) =~= then);
    if declarations.len() == 0 {
        assert(declarations.map_values(meaning) =~= Seq::empty());
    } else {
        let first = declarations[0];
        let others = declarations.skip(1);
        assert(first.wf());
        assert forall|i: int| 0 <= i < others.len() implies (#[trigger] others[i]).wf() by {
            assert(others[i] == declarations[i + 1]);
        }
        lemma_declaration_written(first, declarations_followed_by(others, closing));
        lemma_declarations_written(others, then);
        assert(declarations.map_values(meaning) =~= seq![first.meaning()] + others.map_values(
            meaning,
        ));
    }
}

/// A block is read as what it says, and what is left is what follows it.
pub proof fn lemma_rule_written(written: WrittenRule, then: Seq<char>)
    requires
        written.wf(),
    ensures
        written.followed_by(then).len() > 0,
        rule(written.followed_by(then)) == (written.meaning(), then),
{
    let body = declarations_followed_by(written.declarations, seq!['}'] + then);
    lemma_selectors_end_at_brace(written.selectors, body);
    lemma_block_written(written.declarations, then);
}

/// Reading gives back what was written. The text of well-formed blocks, one
/// after the other and nothing after the last, is read as one rule for each
/// block, in the order of the blocks; each rule has the selectors that the
/// selector text of its block spells, and one declaration for each
/// declaration of the block, in their order, each with the name and the value
/// that was written.
pub proof fn lemma_reading_gives_back_what_was_written(blocks: Seq<WrittenRule>)
    requires
        forall|i: int| 0 <= i < blocks.len() ==> (#[trigger] blocks[i]).wf(),
    ensures
        stylesheet(sheet_text(blocks)).rules == blocks.map_values(|b: WrittenRule| b.meaning()),
        stylesheet(sheet_text(blocks)).rules.len() == blocks.len(),
    decreases blocks.len(),
{
    let meaning = |b: WrittenRule| b.meaning();
    if blocks.len() == 0 {
        assert(blocks.map_values(meaning) =~= Seq::empty());
    } else {
        let first = blocks[0];
        let others = blocks.skip(1);
        assert(first.wf());
        assert forall|i: int| 0 <= i < others.len() implies (#[trigger] others[i]).wf() by {
            assert(others[i] == blocks[i + 1]);
        }
        lemma_rule_written(first, sheet_text(others));
        lemma_reading_gives_back_what_was_written(others);
        assert(blocks.map_values(meaning) =~= seq![first.meaning()] + others.map_values(meaning));
    }
}

} // verus!
