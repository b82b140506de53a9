//! The parser: a cursor over the characters of a style sheet, and the
//! functions that read selectors, declarations and rules from it.

use vstd::prelude::*;
use crate::color::{color_of, hex_channel_one, hex_channel_two, lookup_named_color};
use crate::css::{
    text_of, Color, Declaration, Rule, Selector, SimpleSelector, Stylesheet, Value,
};
use crate::grammar;
use crate::grammar::Compound;
use crate::length::{length_of, length_split_at, numerics};
use crate::text::{
    after_one, after_run, before_colon, before_separator, chars_of, counts_as_numeric, first_of,
    ident_chars, is_beyond_ascii, is_ident_char, is_ident_start, is_lower, is_upper,
    is_whitespace, lemma_span_len_is, lemma_split_is_run, spaces, spells, value_chars,
};

verus! {

/// A cursor over the characters of a style sheet. It looks one character
/// ahead and never goes back.
pub struct Cssparser {
    chars: Vec<char>,
    pos: usize,
}

impl View for Cssparser {
    type V = Seq<char>;

    /// The text that is left to read.
    closed spec fn view(&self) -> Seq<char> {
        if self.pos <= self.chars.len() {
            self.chars@.skip(self.pos as int)
        } else {
            Seq::empty()
        }
    }
}

/// A simple selector while it is being read: what has been gathered, and
/// whether a second id has been met.
pub struct SelectorBuilder {
    selector: SimpleSelector,
    id_conflict: bool,
}

impl View for SelectorBuilder {
    type V = Compound;

    closed spec fn view(&self) -> Compound {
        Compound { selector: self.selector@, id_conflict: self.id_conflict }
    }
}

impl SelectorBuilder {
    /// Begins a selector with a tag name, if any.
    pub fn new(tag_name: Option<String>) -> (builder: SelectorBuilder)
        ensures
            builder@ == grammar::begun(text_of(tag_name)),
    {
        let mut selector = SimpleSelector::default();
        selector.tag_name = tag_name;
        SelectorBuilder { selector, id_conflict: false }
    }

    /// Takes one more id, which may be none. The first id is kept; one that
    /// comes when there is an id already, or after that has happened once,
    /// leaves the selector without an id for good.
    pub fn add_id(&mut self, id: Option<String>)
        ensures
            final(self)@ == grammar::with_id(old(self)@, text_of(id)),
    {
        if self.selector.id.is_some() || self.id_conflict {
            self.selector.id = None;
            self.id_conflict = true;
        } else {
            self.selector.id = id;
        }
    }

    /// Takes one more class; an empty name is no class.
    pub fn add_class(&mut self, name: String)
        ensures
            final(self)@ == grammar::with_class(old(self)@, name@),
    {
        if !name.as_str().is_empty() {
            let ghost classes = self.selector@.classes;
            self.selector.classes.push(name);
            assert(self.selector@.classes == classes.push(name@));
        }
    }

    /// The selector that was gathered: one that names nothing holds no
    /// simple selector.
    pub fn finish(self) -> (selector: Selector)
        ensures
            selector@ == grammar::gathered_selector(self@),
    {
        let mut selector = Selector::default();
        let simple = self.selector;
        if !simple.is_empty() {
            selector.simple.push(simple);
            assert(selector@.simple == seq![simple@]);
        } else {
            assert(selector@.simple == Seq::<crate::css::SimpleSelectorView>::empty());
        }
        selector
    }
}

impl Cssparser {
    /// A cursor at the start of `full_css`.
    pub fn new(full_css: &str) -> (parser: Cssparser)
        ensures
            parser@ == full_css@,
    {
        let chars = chars_of(full_css);
        assert(chars@.skip(0) == chars@);
        Cssparser { chars, pos: 0 }
    }

    /// The next character, which stays where it is.
    pub fn peek(&self) -> (c: Option<char>)
        ensures
            c == first_of(self@),
    {
        if self.pos < self.chars.len() {
            Some(self.chars[self.pos])
        } else {
            None
        }
    }

    /// Takes the next character, if there is one.
    pub fn next(&mut self) -> (c: Option<char>)
        ensures
            c == first_of(old(self)@),
            final(self)@ == after_one(old(self)@),
    {
        if self.pos < self.chars.len() {
            let c = self.chars[self.pos];
            self.pos = self.pos + 1;
            assert(self@ == old(self)@.skip(1));
            Some(c)
        } else {
            None
        }
    }

    /// Takes the longest run of characters that `condition` accepts, and
    /// leaves the first one that it does not accept where it is.
    pub fn consume_while<F>(&mut self, condition: F) -> (taken: String) where F: Fn(char) -> bool
        requires
            forall|c: char| call_requires(condition, (c,)),
        ensures
            old(self)@ == taken@ + final(self)@,
            forall|i: int|
                0 <= i < taken@.len() ==> call_ensures(condition, (#[trigger] taken@[i],), true),
            final(self)@.len() > 0 ==> call_ensures(condition, (final(self)@[0],), false),
    {
        let mut result = String::new();
        loop
            invariant
                old(self)@ == result@ + self@,
                forall|i: int|
                    0 <= i < result@.len() ==> call_ensures(
                        condition,
                        (#[trigger] result@[i],),
                        true,
                    ),
                forall|c: char| call_requires(condition, (c,)),
            ensures
                self@.len() > 0 ==> call_ensures(condition, (self@[0],), false),
            decreases self@.len(),
        {
            let ghost left = self@;
            let ghost so_far = result@;
            match self.peek() {
                Some(c) => {
                    if !condition(c) {
                        break ;
                    }
                    result.push(c);
                    self.next();
                    assert(so_far.push(c) + left.skip(1) == so_far + left);
                },
                None => {
                    break ;
                },
            }
        }
        result
    }

    /// Passes over white space.
    fn skip_whitespace(&mut self)
        ensures
            final(self)@ == after_run(old(self)@, spaces()),
    {
        let taken = self.consume_while(is_whitespace);
        proof {
            lemma_split_is_run(old(self)@, taken@, self@, spaces());
        }
    }

    /// Reads an identifier, in lower case. Where the text does not begin as
    /// an identifier does, nothing is read.
    pub fn parse_identifiter(&mut self) -> (ident: String)
        ensures
            (ident@, final(self)@) == grammar::identifier(old(self)@),
    {
        match self.peek() {
            Some(c) => {
                if Self::is_valid_start_ident(c) {
                    let valid = |c: char| -> (ok: bool)
                        ensures
                            ok == is_ident_char(c),
                        { Self::is_valid_ident(c) };
                    let ident = self.consume_while(valid);
                    proof {
                        lemma_split_is_run(old(self)@, ident@, self@, ident_chars());
                    }
                    return ident.as_str().to_lowercase();
                }
            },
            None => {},
        }
        String::new()
    }

    /// Reads an identifier as an id: none if the identifier is empty.
    pub fn parse_id(&mut self) -> (id: Option<String>)
        ensures
            text_of(id) == grammar::id_of(grammar::identifier(old(self)@).0),
            final(self)@ == grammar::identifier(old(self)@).1,
    {
        let name = self.parse_identifiter();
        if name.as_str().is_empty() {
            None
        } else {
            Some(name)
        }
    }

    /// Reads rules until nothing is left: for each, the selectors of a
    /// block and then its declarations. A block without selectors is a rule
    /// all the same.
    pub fn parse_stylesheet(&mut self) -> (sheet: Stylesheet)
        ensures
            sheet@ == grammar::stylesheet(old(self)@),
            final(self)@.len() == 0,
            sheet.wf(),
    {
        let mut stylesheet = Stylesheet::default();
        let ghost view = |rule: Rule| rule@;

        while self.peek().is_some()
            invariant
                view == |rule: Rule| rule@,
                grammar::rules(old(self)@) == stylesheet.rules@.map_values(view) + grammar::rules(
                    self@,
                ),
                stylesheet.wf(),
            decreases self@.len(),
        {
            let ghost left = self@;
            let ghost found = stylesheet.rules@.map_values(view);
            proof {
                grammar::lemma_rule_shortens(left);
            }
            let selector = self.parse_selectors();
            let style = self.parse_declarations();
            let rule = Rule::new(selector, style);
            assert(rule@ == grammar::rule(left).0);

            stylesheet.rules.push(rule);
            assert(stylesheet.rules@.map_values(view) == found.push(rule@));
            assert(found.push(rule@) + grammar::rules(self@) == found + (seq![rule@]
                + grammar::rules(self@)));
        }
        assert(stylesheet.rules@.map_values(view) + Seq::empty() == stylesheet.rules@.map_values(
            view,
        ));

        stylesheet
    }

    /// Reads one selector, after any white space: a tag name if there is
    /// one, then ids and classes up to a comma, an opening brace, white space
    /// or the end. A second id leaves the selector without an id; what is
    /// not understood is passed over.
    pub fn parse_selector(&mut self) -> (selector: Selector)
        ensures
            (selector@, final(self)@) == grammar::selector(old(self)@),
    {
        self.skip_whitespace();

        let mut tag_name: Option<String> = None;
        match self.peek() {
            Some(c) => {
                if Self::is_valid_start_ident(c) {
                    tag_name = Some(self.parse_identifiter());
                }
            },
            None => {},
        }
        let mut sselector = SelectorBuilder::new(tag_name);

        let ghost start = sselector@;
        let ghost after_tag = self@;
        loop
            invariant
                grammar::selector_parts(start, after_tag) == grammar::selector_parts(
                    sselector@,
                    self@,
                ),
            ensures
                grammar::selector_parts(start, after_tag) == (sselector@, self@),
            decreases self@.len(),
        {
            let ghost gathered = sselector@;
            let ghost left = self@;
            let c = match self.peek() {
                Some(c) => c,
                None => {
                    break ;
                },
            };
            if c == ',' || c == '{' || is_whitespace(c) {
                break ;
            }
            proof {
                grammar::lemma_selector_part_shortens(gathered, left);
            }
            if c == '#' {
                self.next();
                let id = self.parse_id();
                sselector.add_id(id);
            } else if c == '.' {
                self.next();
                let class_name = self.parse_identifiter();
                sselector.add_class(class_name);
            } else {
                let passed = |c: char| -> (ok: bool)
                    ensures
                        ok == (c != ',' && c != '{'),
                    { c != ',' && c != '{' };
                let taken = self.consume_while(passed);
                proof {
                    lemma_split_is_run(left, taken@, self@, before_separator());
                }
            }
            assert((sselector@, self@) == grammar::selector_part(gathered, left));
        }

        sselector.finish()
    }

    /// Reads the selectors of a block, up to and with the brace that opens
    /// it. Selectors that name nothing are left out.
    pub fn parse_selectors(&mut self) -> (selectors: Vec<Selector>)
        ensures
            (selectors@.map_values(|selector: Selector| selector@), final(self)@)
                == grammar::selector_group(old(self)@),
    {
        let mut selectors: Vec<Selector> = Vec::new();
        let ghost view = |selector: Selector| selector@;

        loop
            invariant
                view == |selector: Selector| selector@,
                grammar::selector_list(old(self)@) == (
                    selectors@.map_values(view) + grammar::selector_list(self@).0,
                    grammar::selector_list(self@).1,
                ),
            ensures
                view == |selector: Selector| selector@,
                grammar::selector_list(old(self)@) == (selectors@.map_values(view), self@),
            decreases self@.len(),
        {
            let ghost left = self@;
            let ghost found = selectors@.map_values(view);
            match self.peek() {
                Some(c) => {
                    if c == '{' {
                        assert(found + Seq::empty() == found);
                        break ;
                    }
                },
                None => {
                    assert(found + Seq::empty() == found);
                    break ;
                },
            }
            proof {
                grammar::lemma_after_selector_shortens(left);
            }
            let selector = self.parse_selector();

            if selector.simple.len() != 0 {
                selectors.push(selector);
                assert(selectors@.map_values(view) == found.push(selector@));
                assert(found.push(selector@) + grammar::selector_list(
                    grammar::after_selector(left),
                ).0 == found + (seq![selector@] + grammar::selector_list(
                    grammar::after_selector(left),
                ).0));
            }

            self.skip_whitespace();
            match self.peek() {
                Some(c) => {
                    if c == ',' {
                        self.next();
                    }
                },
                None => {},
            }
            assert(self@ == grammar::after_selector(left));
        }

        self.next();
        selectors
    }

    /// Reads the declarations of a block, up to and with the brace that
    /// closes it. A declaration counts if a semicolon ends it, or if nothing
    /// but white space stands between it and the closing brace.
    pub fn parse_declarations(&mut self) -> (declarations: Vec<Declaration>)
        ensures
            (declarations@.map_values(|declaration: Declaration| declaration@), final(self)@)
                == grammar::declaration_block(old(self)@),
            forall|i: int| 0 <= i < declarations@.len() ==> (#[trigger] declarations@[i])@.value.wf(),
    {
        let mut declarations = Vec::<Declaration>::new();
        let ghost view = |declaration: Declaration| declaration@;

        loop
            invariant
                view == |declaration: Declaration| declaration@,
                grammar::declaration_list(old(self)@) == (
                    declarations@.map_values(view) + grammar::declaration_list(self@).0,
                    grammar::declaration_list(self@).1,
                ),
                forall|i: int|
                    0 <= i < declarations@.len() ==> (#[trigger] declarations@[i])@.value.wf(),
            ensures
                view == |declaration: Declaration| declaration@,
                grammar::declaration_list(old(self)@) == (declarations@.map_values(view), self@),
                forall|i: int|
                    0 <= i < declarations@.len() ==> (#[trigger] declarations@[i])@.value.wf(),
            decreases self@.len(),
        {
            let ghost left = self@;
            let ghost found = declarations@.map_values(view);
            match self.peek() {
                Some(c) => {
                    if c == '}' {
                        assert(found + Seq::empty() == found);
                        break ;
                    }
                },
                None => {
                    assert(found + Seq::empty() == found);
                    break ;
                },
            }
            proof {
                grammar::lemma_declaration_shortens(left);
            }
            self.skip_whitespace();

            let ghost at_property = self@;
            let not_colon = |x: char| -> (ok: bool)
                ensures
                    ok == (x != ':'),
                { x != ':' };
            let name = self.consume_while(not_colon);
            proof {
                lemma_split_is_run(at_property, name@, self@, before_colon());
            }
            let propety = name.as_str().to_lowercase();

            self.next();
            self.skip_whitespace();

            let ghost at_value = self@;
            let in_value = |x: char| -> (ok: bool)
                ensures
                    ok == (x != ';' && x != '\n' && x != '}'),
                { x != ';' && x != '\n' && x != '}' };
            let text = self.consume_while(in_value);
            proof {
                lemma_split_is_run(at_value, text@, self@, value_chars());
            }
            let value = text.as_str().to_lowercase();

            let value_enum = Self::translate_value(propety.as_str(), value);
            let declaration = Declaration::new(propety, value_enum);
            assert(declaration@ == grammar::declared(left));
            let ghost more = grammar::declaration_list(grammar::declaration(left).1).0;

            let ends = match self.peek() {
                Some(c) => c == ';',
                None => false,
            };
            if ends {
                declarations.push(declaration);
                self.next();
                assert(declarations@.map_values(view) == found.push(declaration@));
                assert(found.push(declaration@) + more == found + (seq![declaration@] + more));
            } else {
                self.skip_whitespace();
                let closes = match self.peek() {
                    Some(c) => c == '}',
                    None => false,
                };
                if closes {
                    declarations.push(declaration);
                    assert(declarations@.map_values(view) == found.push(declaration@));
                    assert(found.push(declaration@) + more == found + (seq![declaration@]
                        + more));
                }
            }
            self.skip_whitespace();
            proof {
                if !ends {
                    grammar::lemma_spaces_passed_once(grammar::from_value_end(left));
                }
            }
            assert(self@ == grammar::declaration(left).1);
        }

        self.next();
        declarations
    }

    /// The value of `property`, from its text in lower case: a colour or a
    /// length where the property takes one, and else the text as it is.
    pub fn translate_value(property: &str, text: String) -> (value: Value)
        ensures
            value@ == grammar::value_of(property@, text@),
            value@.wf(),
    {
        let name = chars_of(property);
        if spells(&name, "background-color") || spells(&name, "border-color") || spells(
            &name,
            "color",
        ) {
            Value::Color(Self::translate_color(text.as_str()))
        } else if spells(&name, "margin-right") || spells(&name, "margin-left") || spells(
            &name,
            "margin-bottom",
        ) || spells(&name, "margin-top") || spells(&name, "padding-right") || spells(
            &name,
            "padding-left",
        ) || spells(&name, "padding-bottom") || spells(&name, "padding-top") || spells(
            &name,
            "border-right-width",
        ) || spells(&name, "border-left-width") || spells(&name, "border-bottom-width")
            || spells(&name, "border-top-width") || spells(&name, "height") || spells(
            &name,
            "width",
        ) {
            Self::translate_lenght(text.as_str())
        } else {
            Value::Other(text)
        }
    }

    /// The length that `value` stands for: the digits of its size, and its
    /// unit.
    pub fn translate_lenght(value: &str) -> (result: Value)
        ensures
            result@ == length_of(value@),
            result@.wf(),
    {
        let chars = chars_of(value);
        let mut run: usize = 0;
        loop
            invariant_except_break
                run <= chars@.len(),
                forall|i: int| 0 <= i < run ==> counts_as_numeric(#[trigger] chars@[i]),
            ensures
                run <= chars@.len(),
                forall|i: int| 0 <= i < run ==> counts_as_numeric(#[trigger] chars@[i]),
                run < chars@.len() ==> !counts_as_numeric(chars@[run as int]),
            decreases chars@.len() - run,
        {
            if run >= chars.len() {
                break ;
            }
            if !chars[run].is_numeric() {
                break ;
            }
            run = run + 1;
        }
        proof {
            lemma_span_len_is(chars@, numerics(), run as int);
        }
        length_split_at(&chars, run)
    }

    /// The colour that `color` stands for; black where it stands for none.
    pub fn translate_color(color: &str) -> (result: Color)
        ensures
            result == color_of(color@),
            result.wf(),
    {
        let value = chars_of(color);
        let len = value.len();
        if len > 0 && value[0] == '#' {
            if len == 7 {
                Color::from_parts(
                    hex_channel_two(value[1], value[2]),
                    hex_channel_two(value[3], value[4]),
                    hex_channel_two(value[5], value[6]),
                    255,
                )
            } else if len == 4 {
                Color::from_parts(
                    hex_channel_one(value[1]),
                    hex_channel_one(value[2]),
                    hex_channel_one(value[3]),
                    15,
                )
            } else {
                Color::default()
            }
        } else if len >= 3 && value[0] == 'r' && value[1] == 'g' && value[2] == 'b' {
            Color::default()
        } else if len >= 3 && value[0] == 'h' && value[1] == 's' && value[2] == 'l' {
            Color::default()
        } else {
            match lookup_named_color(&value) {
                Some(color) => color,
                None => Color::default(),
            }
        }
    }

    /// Whether `c` may continue an identifier.
    pub fn is_valid_ident(c: char) -> (valid: bool)
        ensures
            valid == is_ident_char(c),
    {
        Self::is_valid_start_ident(c) || ('0' <= c && c <= '9') || c == '-'
    }

    /// Whether `c` may begin an identifier.
    pub fn is_valid_start_ident(c: char) -> (valid: bool)
        ensures
            valid == is_ident_start(c),
    {
        Self::is_letter(c) || Self::is_non_ascii(c) || c == '_'
    }

    /// Whether `c` is an ASCII letter.
    pub fn is_letter(c: char) -> (letter: bool)
        ensures
            letter == (is_upper(c) || is_lower(c)),
    {
        Self::is_upper_letter(c) || Self::is_lower_letter(c)
    }

    /// Whether `c` is an upper-case ASCII letter.
    pub fn is_upper_letter(c: char) -> (upper: bool)
        ensures
            upper == is_upper(c),
    {
        c >= 'A' && c <= 'Z'
    }

    /// Whether `c` is a lower-case ASCII letter.
    pub fn is_lower_letter(c: char) -> (lower: bool)
        ensures
            lower == is_lower(c),
    {
        c >= 'a' && c <= 'z'
    }

    /// Whether `c` lies outside ASCII.
    pub fn is_non_ascii(c: char) -> (beyond: bool)
        ensures
            beyond == is_beyond_ascii(c),
    {
        c > '\u{7f}'
    }
}

/// The style sheet that `source` spells. Every text spells one.
pub fn parse(source: &str) -> (sheet: Stylesheet)
    ensures
        sheet@ == grammar::stylesheet(source@),
        sheet.wf(),
{
    let mut parser = Cssparser::new(source);
    parser.parse_stylesheet()
}

} // verus!
