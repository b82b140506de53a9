use css_parser::css::{
    Color, Declaration, Magnitude, Rule, Selector, SimpleSelector, Stylesheet, Unit, Value,
    CHANNEL_MAX,
};
use css_parser::css_parse::{parse, Cssparser, SelectorBuilder};
use css_parser::length::length_split_at;

fn text(s: &str) -> String {
    String::from(s)
}

fn size(digits: &str) -> Magnitude {
    Magnitude { digits: text(digits) }
}

fn simple(tag: Option<&str>, id: Option<&str>, classes: &[&str]) -> SimpleSelector {
    SimpleSelector {
        tag_name: tag.map(text),
        id: id.map(text),
        classes: classes.iter().map(|c| text(c)).collect(),
    }
}

fn one(tag: Option<&str>, id: Option<&str>, classes: &[&str]) -> Selector {
    Selector { simple: vec![simple(tag, id, classes)] }
}

fn red() -> Color {
    Color { r: CHANNEL_MAX, g: 0, b: 0, a: CHANNEL_MAX }
}

fn black() -> Color {
    Color { r: 0, g: 0, b: 0, a: CHANNEL_MAX }
}

fn channels(c: Color) -> (f32, f32, f32, f32) {
    let full = CHANNEL_MAX as f32;
    (c.r as f32 / full, c.g as f32 / full, c.b as f32 / full, c.a as f32 / full)
}

#[test]
fn class_names_fold_to_lower_case() {
    let upper = parse(".Foo{}");
    let lower = parse(".foo{}");
    assert_eq!(upper.rules.len(), 1);
    assert_eq!(upper.rules[0].selectors[0].simple[0].classes, vec![text("foo")]);
    assert_eq!(
        upper.rules[0].selectors[0].simple[0].classes,
        lower.rules[0].selectors[0].simple[0].classes
    );
    assert_eq!(upper, lower);
}

#[test]
fn two_ids_leave_no_id() {
    let sheet = parse("div#a#b{color:red;}");
    assert_eq!(sheet.rules.len(), 1);
    assert_eq!(sheet.rules[0].selectors, vec![one(Some("div"), None, &[])]);
    assert_eq!(
        sheet.rules[0].declarations,
        vec![Declaration { property: text("color"), value: Value::Color(red()) }]
    );
}

#[test]
fn three_ids_leave_no_id() {
    let sheet = parse("#a#b#c.k{}");
    assert_eq!(sheet.rules[0].selectors, vec![one(None, None, &["k"])]);
}

#[test]
fn an_empty_id_does_not_count_as_a_first_id() {
    let sheet = parse("p##a{}");
    assert_eq!(sheet.rules[0].selectors, vec![one(Some("p"), Some("a"), &[])]);
}

#[test]
fn an_empty_id_after_an_id_removes_it() {
    let sheet = parse("p#a#{}");
    assert_eq!(sheet.rules[0].selectors, vec![one(Some("p"), None, &[])]);
}

#[test]
fn last_declaration_needs_no_semicolon() {
    let sheet = parse("p{color:red}");
    assert_eq!(
        sheet,
        Stylesheet {
            rules: vec![Rule {
                selectors: vec![one(Some("p"), None, &[])],
                declarations: vec![Declaration {
                    property: text("color"),
                    value: Value::Color(red()),
                }],
            }],
        }
    );
}

#[test]
fn last_declaration_may_be_followed_by_white_space() {
    let sheet = parse("p{width:3px\n  }");
    assert_eq!(
        sheet.rules[0].declarations,
        vec![Declaration { property: text("width"), value: Value::Length(size("3"), Unit::Px) }]
    );
}

#[test]
fn a_fraction_ends_the_size() {
    let sheet = parse("p{width:1.5em;}");
    assert_eq!(
        sheet.rules[0].declarations,
        vec![Declaration { property: text("width"), value: Value::Length(size("1"), Unit::Px) }]
    );
    assert_eq!(Cssparser::translate_lenght("1.5em"), Value::Length(size("1"), Unit::Px));
}

#[test]
fn hex_colors_of_six_and_three_digits() {
    assert_eq!(Cssparser::translate_color("#ff0000"), red());
    assert_eq!(Cssparser::translate_color("#f00"), red());
    assert_eq!(channels(Cssparser::translate_color("#ff0000")), (1.0, 0.0, 0.0, 1.0));
    assert_eq!(channels(Cssparser::translate_color("#f00")), (1.0, 0.0, 0.0, 1.0));
    let c = Cssparser::translate_color("#1a2b3c");
    assert_eq!(c, Color { r: 4 * 0x1a, g: 4 * 0x2b, b: 4 * 0x3c, a: CHANNEL_MAX });
    assert_eq!(
        channels(c),
        (0x1a as f32 / 255.0, 0x2b as f32 / 255.0, 0x3c as f32 / 255.0, 1.0)
    );
    let d = Cssparser::translate_color("#a5c");
    assert_eq!(d, Color { r: 68 * 10, g: 68 * 5, b: 68 * 12, a: CHANNEL_MAX });
    assert_eq!(channels(d), (10.0 / 15.0, 5.0 / 15.0, 12.0 / 15.0, 1.0));
}

#[test]
fn hex_digits_in_upper_case() {
    assert_eq!(Cssparser::translate_color("#FF00aB"), Color { r: 1020, g: 0, b: 4 * 0xab, a: 1020 });
}

#[test]
fn a_bad_hex_channel_is_zero() {
    assert_eq!(Cssparser::translate_color("#zz00ff"), Color { r: 0, g: 0, b: 1020, a: 1020 });
    assert_eq!(Cssparser::translate_color("#f-0010"), Color { r: 0, g: 0, b: 64, a: 1020 });
    assert_eq!(Cssparser::translate_color("#g0f"), Color { r: 0, g: 0, b: 1020, a: 1020 });
}

#[test]
fn a_plus_sign_may_stand_for_the_first_hex_digit() {
    assert_eq!(Cssparser::translate_color("#+f0000"), Color { r: 60, g: 0, b: 0, a: 1020 });
    assert_eq!(Cssparser::translate_color("#++0000"), Color { r: 0, g: 0, b: 0, a: 1020 });
    assert_eq!(Cssparser::translate_color("#+00"), black());
}

#[test]
fn hex_of_another_length_is_black() {
    assert_eq!(Cssparser::translate_color("#"), black());
    assert_eq!(Cssparser::translate_color("#ff"), black());
    assert_eq!(Cssparser::translate_color("#ffff"), black());
    assert_eq!(Cssparser::translate_color("#fffff"), black());
    assert_eq!(Cssparser::translate_color("#fffffff"), black());
}

#[test]
fn hex_length_counts_characters() {
    assert_eq!(Cssparser::translate_color("#\u{e9}\u{e9}\u{e9}"), black());
    assert_eq!(Cssparser::translate_color("#a\u{e9}\u{e9}a"), black());
    assert_eq!(Cssparser::translate_color("#ff\u{e9}ab"), black());
    assert_eq!(
        Cssparser::translate_color("#ff\u{e9}\u{e9}ab"),
        Color { r: 1020, g: 0, b: 4 * 0xab, a: 1020 }
    );
}

#[test]
fn an_unknown_property_keeps_its_text() {
    let sheet = parse("p{foo: bar;}");
    assert_eq!(
        sheet.rules[0].declarations,
        vec![Declaration { property: text("foo"), value: Value::Other(text("bar")) }]
    );
    let sheet = parse("#x.y, h1 {Foo: BAR baz;}");
    assert_eq!(
        sheet.rules[0].declarations,
        vec![Declaration { property: text("foo"), value: Value::Other(text("bar baz")) }]
    );
    assert_eq!(
        Cssparser::translate_value("display", text("block")),
        Value::Other(text("block"))
    );
}

#[test]
fn functional_notation_is_black() {
    let sheet = parse("p{color: rgb(1,2,3);}");
    assert_eq!(
        sheet.rules[0].declarations,
        vec![Declaration { property: text("color"), value: Value::Color(black()) }]
    );
    assert_eq!(Cssparser::translate_color("rgb(255,0,0)"), black());
    assert_eq!(Cssparser::translate_color("hsl(120,100%,50%)"), black());
    assert_eq!(Cssparser::translate_color("rgba(255,0,0,1)"), black());
}

#[test]
fn rules_and_declarations_keep_their_order() {
    let source = "h1{color:red;width:10px;}\n.note, p#x {\n  margin-top: 2em;\n  background-color: #00f;\n  display: none;\n}\ndiv{}";
    let sheet = parse(source);
    assert_eq!(
        sheet,
        Stylesheet {
            rules: vec![
                Rule {
                    selectors: vec![one(Some("h1"), None, &[])],
                    declarations: vec![
                        Declaration { property: text("color"), value: Value::Color(red()) },
                        Declaration {
                            property: text("width"),
                            value: Value::Length(size("10"), Unit::Px),
                        },
                    ],
                },
                Rule {
                    selectors: vec![one(None, None, &["note"]), one(Some("p"), Some("x"), &[])],
                    declarations: vec![
                        Declaration {
                            property: text("margin-top"),
                            value: Value::Length(size("2"), Unit::Em),
                        },
                        Declaration {
                            property: text("background-color"),
                            value: Value::Color(Color { r: 0, g: 0, b: 1020, a: 1020 }),
                        },
                        Declaration { property: text("display"), value: Value::Other(text("none")) },
                    ],
                },
                Rule { selectors: vec![one(Some("div"), None, &[])], declarations: vec![] },
            ],
        }
    );
}

#[test]
fn empty_input_has_no_rules() {
    assert_eq!(parse(""), Stylesheet { rules: vec![] });
    let mut parser = Cssparser::new("");
    assert_eq!(parser.parse_stylesheet().rules.len(), 0);
}

#[test]
fn a_second_run_on_a_spent_cursor_has_no_rules() {
    let mut parser = Cssparser::new("p{color:red;}");
    assert_eq!(parser.parse_stylesheet().rules.len(), 1);
    assert_eq!(parser.parse_stylesheet().rules.len(), 0);
    assert_eq!(parser.peek(), None);
}

#[test]
fn a_block_without_selectors_is_a_rule() {
    let sheet = parse("{}");
    assert_eq!(sheet, Stylesheet { rules: vec![Rule { selectors: vec![], declarations: vec![] }] });
    let sheet = parse("{color:red;}p{}");
    assert_eq!(sheet.rules.len(), 2);
    assert_eq!(sheet.rules[0].selectors, vec![]);
    assert_eq!(sheet.rules[0].declarations.len(), 1);
}

#[test]
fn white_space_after_the_last_block_is_one_more_rule() {
    let sheet = parse("p{}\n");
    assert_eq!(sheet.rules.len(), 2);
    assert_eq!(sheet.rules[1], Rule { selectors: vec![], declarations: vec![] });
}

#[test]
fn text_without_braces_is_one_rule() {
    let sheet = parse("p");
    assert_eq!(
        sheet,
        Stylesheet {
            rules: vec![Rule { selectors: vec![one(Some("p"), None, &[])], declarations: vec![] }],
        }
    );
}

#[test]
fn what_is_not_understood_in_a_selector_is_passed_over() {
    let sheet = parse("a > b, c:hover, d[x=y]{}");
    assert_eq!(
        sheet.rules[0].selectors,
        vec![one(Some("a"), None, &[]), one(Some("c"), None, &[]), one(Some("d"), None, &[])]
    );
    let sheet = parse("*{}");
    assert_eq!(sheet.rules[0].selectors, vec![]);
}

#[test]
fn white_space_parts_selectors() {
    let sheet = parse("div p{}");
    assert_eq!(
        sheet.rules[0].selectors,
        vec![one(Some("div"), None, &[]), one(Some("p"), None, &[])]
    );
}

#[test]
fn commas_alone_give_no_selectors() {
    let sheet = parse(",,{}");
    assert_eq!(sheet.rules[0].selectors, vec![]);
}

#[test]
fn an_identifier_does_not_begin_with_a_digit_or_a_hyphen() {
    let sheet = parse("1a{}");
    assert_eq!(sheet.rules[0].selectors, vec![]);
    let sheet = parse(".-x{}");
    assert_eq!(sheet.rules[0].selectors, vec![]);
    let sheet = parse("a1-b_c.d-2{}");
    assert_eq!(sheet.rules[0].selectors, vec![one(Some("a1-b_c"), None, &["d-2"])]);
}

#[test]
fn identifiers_take_characters_outside_ascii() {
    let sheet = parse("\u{e9}t\u{e9}#\u{4e2d}.\u{3b1}{}");
    assert_eq!(
        sheet.rules[0].selectors,
        vec![one(Some("\u{e9}t\u{e9}"), Some("\u{4e2d}"), &["\u{3b1}"])]
    );
    let sheet = parse("\u{c9}T\u{c9}{}");
    assert_eq!(sheet.rules[0].selectors, vec![one(Some("\u{e9}t\u{e9}"), None, &[])]);
}

#[test]
fn classes_keep_their_order_and_repeats() {
    let sheet = parse(".b.a.b{}");
    assert_eq!(sheet.rules[0].selectors, vec![one(None, None, &["b", "a", "b"])]);
}

#[test]
fn a_declaration_followed_by_other_text_is_dropped() {
    let sheet = parse("p{color:red\nwidth:3px;}");
    assert_eq!(
        sheet.rules[0].declarations,
        vec![Declaration { property: text("width"), value: Value::Length(size("3"), Unit::Px) }]
    );
}

#[test]
fn a_value_keeps_the_white_space_at_its_end() {
    let sheet = parse("p{color:red ;x:  y z ;}");
    assert_eq!(
        sheet.rules[0].declarations,
        vec![
            Declaration { property: text("color"), value: Value::Color(black()) },
            Declaration { property: text("x"), value: Value::Other(text("y z ")) },
        ]
    );
}

#[test]
fn a_property_name_keeps_the_white_space_at_its_end() {
    let sheet = parse("p{color : red;}");
    assert_eq!(
        sheet.rules[0].declarations,
        vec![Declaration { property: text("color "), value: Value::Other(text("red")) }]
    );
}

#[test]
fn white_space_alone_in_a_block_takes_the_brace_into_a_name() {
    let sheet = parse("p{ }q{a:b;}");
    assert_eq!(sheet.rules.len(), 1);
    assert_eq!(
        sheet.rules[0].declarations,
        vec![Declaration { property: text("}q{a"), value: Value::Other(text("b")) }]
    );
}

#[test]
fn property_names_fold_to_lower_case() {
    let sheet = parse("P{COLOR:RED;Width:10PX;}");
    assert_eq!(sheet.rules[0].selectors, vec![one(Some("p"), None, &[])]);
    assert_eq!(
        sheet.rules[0].declarations,
        vec![
            Declaration { property: text("color"), value: Value::Color(red()) },
            Declaration { property: text("width"), value: Value::Length(size("10"), Unit::Px) },
        ]
    );
}

#[test]
fn every_property_that_takes_a_color() {
    for property in ["background-color", "border-color", "color"] {
        assert_eq!(Cssparser::translate_value(property, text("#f00")), Value::Color(red()));
    }
}

#[test]
fn every_property_that_takes_a_length() {
    for property in [
        "margin-top",
        "margin-right",
        "margin-bottom",
        "margin-left",
        "padding-top",
        "padding-right",
        "padding-bottom",
        "padding-left",
        "border-top-width",
        "border-right-width",
        "border-bottom-width",
        "border-left-width",
        "height",
        "width",
    ] {
        assert_eq!(
            Cssparser::translate_value(property, text("12pt")),
            Value::Length(size("12"), Unit::Pt)
        );
    }
    assert_eq!(Cssparser::translate_value("margin", text("12pt")), Value::Other(text("12pt")));
    assert_eq!(Cssparser::translate_value("Width", text("12pt")), Value::Other(text("12pt")));
}

#[test]
fn every_unit() {
    let units = [
        ("em", Unit::Em),
        ("ex", Unit::Ex),
        ("rem", Unit::Rem),
        ("ch", Unit::Ch),
        ("vh", Unit::Vh),
        ("vw", Unit::Vw),
        ("vmin", Unit::Vmin),
        ("vmax", Unit::Vmax),
        ("px", Unit::Px),
        ("mm", Unit::Mm),
        ("q", Unit::Q),
        ("cm", Unit::Cm),
        ("in", Unit::In),
        ("pt", Unit::Pt),
        ("pc", Unit::Pc),
        ("%", Unit::Pct),
    ];
    for (suffix, unit) in units {
        let value = format!("42{}", suffix);
        assert_eq!(Cssparser::translate_lenght(&value), Value::Length(size("42"), unit));
    }
}

#[test]
fn an_unknown_unit_is_pixels() {
    assert_eq!(Cssparser::translate_lenght("7furlongs"), Value::Length(size("7"), Unit::Px));
    assert_eq!(Cssparser::translate_lenght("7"), Value::Length(size("7"), Unit::Px));
    assert_eq!(Cssparser::translate_lenght("7 px"), Value::Length(size("7"), Unit::Px));
    assert_eq!(Cssparser::translate_lenght("7PX"), Value::Length(size("7"), Unit::Px));
    assert_eq!(Cssparser::translate_lenght("7EM"), Value::Length(size("7"), Unit::Px));
}

#[test]
fn a_length_without_digits_is_zero() {
    assert_eq!(Cssparser::translate_lenght(""), Value::Length(size(""), Unit::Px));
    assert_eq!(Cssparser::translate_lenght("em"), Value::Length(size(""), Unit::Em));
    assert_eq!(Cssparser::translate_lenght("-3px"), Value::Length(size(""), Unit::Px));
    assert_eq!(Cssparser::translate_lenght("auto"), Value::Length(size(""), Unit::Px));
}

#[test]
fn digits_after_the_unit_begins_belong_to_the_unit() {
    assert_eq!(Cssparser::translate_lenght("12px3"), Value::Length(size("12"), Unit::Px));
    assert_eq!(Cssparser::translate_lenght("12e3em"), Value::Length(size("12"), Unit::Px));
}

#[test]
fn numeric_characters_outside_ascii_make_the_size_zero() {
    // U+0663 is a decimal digit, U+00BE a fraction, U+2460 a circled one.
    assert_eq!(Cssparser::translate_lenght("\u{663}px"), Value::Length(size(""), Unit::Px));
    assert_eq!(Cssparser::translate_lenght("1\u{663}em"), Value::Length(size(""), Unit::Em));
    assert_eq!(Cssparser::translate_lenght("1\u{be}%"), Value::Length(size(""), Unit::Pct));
    assert_eq!(Cssparser::translate_lenght("\u{2460}2cm"), Value::Length(size(""), Unit::Cm));
    // U+4E09 is a numeral in writing, and not numeric to the standard library.
    assert_eq!(Cssparser::translate_lenght("3\u{4e09}em"), Value::Length(size("3"), Unit::Px));
}

#[test]
fn a_size_of_any_length_keeps_its_digits() {
    let digits = "0001234567890123456789012345678901234567890";
    let value = format!("{}px", digits);
    assert_eq!(Cssparser::translate_lenght(&value), Value::Length(size(digits), Unit::Px));
}

#[test]
fn keyword_colors_in_coarse_parts() {
    assert_eq!(channels(Cssparser::translate_color("black")), (0.0, 0.0, 0.0, 1.0));
    assert_eq!(channels(Cssparser::translate_color("silver")), (0.75, 0.75, 0.75, 1.0));
    assert_eq!(channels(Cssparser::translate_color("gray")), (0.5, 0.5, 0.5, 1.0));
    assert_eq!(channels(Cssparser::translate_color("grey")), (0.5, 0.5, 0.5, 1.0));
    assert_eq!(channels(Cssparser::translate_color("white")), (1.0, 1.0, 1.0, 1.0));
    assert_eq!(channels(Cssparser::translate_color("yellowgreen")), (0.6, 0.8, 0.2, 1.0));
    assert_eq!(channels(Cssparser::translate_color("red")), (1.0, 0.0, 0.0, 1.0));
    assert_eq!(channels(Cssparser::translate_color("blue")), (0.0, 0.0, 1.0, 1.0));
    assert_eq!(channels(Cssparser::translate_color("green")), (0.0, 1.0, 0.0, 1.0));
    assert_eq!(channels(Cssparser::translate_color("purple")), (0.5, 0.0, 0.5, 1.0));
    assert_eq!(channels(Cssparser::translate_color("orange")), (1.0, 0.5, 0.0, 1.0));
    assert_eq!(
        Cssparser::translate_color("silver"),
        Color { r: 765, g: 765, b: 765, a: 1020 }
    );
    assert_eq!(
        Cssparser::translate_color("yellowgreen"),
        Color { r: 612, g: 816, b: 204, a: 1020 }
    );
}

#[test]
fn keyword_colors_in_bytes() {
    assert_eq!(
        Cssparser::translate_color("aliceblue"),
        Color { r: 4 * 240, g: 4 * 248, b: 4 * 255, a: 1020 }
    );
    assert_eq!(
        channels(Cssparser::translate_color("aliceblue")),
        (240.0 / 255.0, 248.0 / 255.0, 1.0, 1.0)
    );
    assert_eq!(
        Cssparser::translate_color("yellow"),
        Color { r: 1020, g: 1020, b: 0, a: 1020 }
    );
    assert_eq!(
        Cssparser::translate_color("darkslategrey"),
        Color { r: 4 * 47, g: 4 * 79, b: 4 * 79, a: 1020 }
    );
    assert_eq!(
        Cssparser::translate_color("tomato"),
        Color { r: 4 * 255, g: 4 * 99, b: 4 * 71, a: 1020 }
    );
    assert_eq!(
        Cssparser::translate_color("whitesmoke"),
        Color { r: 4 * 245, g: 4 * 245, b: 4 * 245, a: 1020 }
    );
}

#[test]
fn an_unknown_keyword_is_black() {
    assert_eq!(Cssparser::translate_color("rebeccapurple"), black());
    assert_eq!(Cssparser::translate_color(""), black());
    assert_eq!(Cssparser::translate_color("Red"), black());
    assert_eq!(Cssparser::translate_color("red "), black());
    assert_eq!(Cssparser::translate_color("transparent"), black());
}

#[test]
fn every_channel_is_in_range() {
    for word in ["red", "silver", "aliceblue", "#ffffff", "#fff", "#000", "nothing", "rgb(9,9,9)"] {
        let c = Cssparser::translate_color(word);
        assert!(c.r <= CHANNEL_MAX && c.g <= CHANNEL_MAX && c.b <= CHANNEL_MAX);
        assert_eq!(c.a, CHANNEL_MAX);
    }
}

#[test]
fn the_cursor_looks_ahead_and_takes() {
    let mut parser = Cssparser::new("ab");
    assert_eq!(parser.peek(), Some('a'));
    assert_eq!(parser.peek(), Some('a'));
    assert_eq!(parser.next(), Some('a'));
    assert_eq!(parser.next(), Some('b'));
    assert_eq!(parser.next(), None);
    assert_eq!(parser.peek(), None);
}

#[test]
fn consume_while_takes_the_longest_run() {
    let mut parser = Cssparser::new("aaab");
    assert_eq!(parser.consume_while(|c| c == 'a'), "aaa");
    assert_eq!(parser.peek(), Some('b'));
    assert_eq!(parser.consume_while(|c| c == 'a'), "");
    assert_eq!(parser.peek(), Some('b'));
    assert_eq!(parser.consume_while(|_| true), "b");
    assert_eq!(parser.consume_while(|_| true), "");
}

#[test]
fn parse_identifiter_reads_and_folds() {
    let mut parser = Cssparser::new("Foo-Bar_9 x");
    assert_eq!(parser.parse_identifiter(), "foo-bar_9");
    assert_eq!(parser.peek(), Some(' '));
    assert_eq!(parser.parse_identifiter(), "");
    assert_eq!(parser.peek(), Some(' '));
    let mut parser = Cssparser::new("9a");
    assert_eq!(parser.parse_identifiter(), "");
    assert_eq!(parser.peek(), Some('9'));
}

#[test]
fn parse_id_is_none_for_an_empty_name() {
    let mut parser = Cssparser::new("Main{");
    assert_eq!(parser.parse_id(), Some(text("main")));
    assert_eq!(parser.parse_id(), None);
    assert_eq!(parser.peek(), Some('{'));
}

#[test]
fn parse_selector_stops_before_a_comma() {
    let mut parser = Cssparser::new("  h1.Big#Top , p");
    assert_eq!(parser.parse_selector(), one(Some("h1"), Some("top"), &["big"]));
    assert_eq!(parser.peek(), Some(' '));
    let mut parser = Cssparser::new(",p");
    assert_eq!(parser.parse_selector(), Selector { simple: vec![] });
    assert_eq!(parser.peek(), Some(','));
}

#[test]
fn parse_selectors_takes_the_opening_brace() {
    let mut parser = Cssparser::new("a, .b ,#c{x");
    assert_eq!(
        parser.parse_selectors(),
        vec![one(Some("a"), None, &[]), one(None, None, &["b"]), one(None, Some("c"), &[])]
    );
    assert_eq!(parser.peek(), Some('x'));
}

#[test]
fn parse_declarations_takes_the_closing_brace() {
    let mut parser = Cssparser::new(" height : 5vh; color:BLUE }x");
    assert_eq!(
        parser.parse_declarations(),
        vec![
            Declaration { property: text("height "), value: Value::Other(text("5vh")) },
            Declaration { property: text("color"), value: Value::Color(black()) },
        ]
    );
    assert_eq!(parser.peek(), Some('x'));
    let mut parser = Cssparser::new("height:5vh;color:BLUE}x");
    assert_eq!(
        parser.parse_declarations(),
        vec![
            Declaration { property: text("height"), value: Value::Length(size("5"), Unit::Vh) },
            Declaration {
                property: text("color"),
                value: Value::Color(Color { r: 0, g: 0, b: 1020, a: 1020 }),
            },
        ]
    );
    assert_eq!(parser.peek(), Some('x'));
}

#[test]
fn character_classes() {
    assert!(Cssparser::is_valid_start_ident('a'));
    assert!(Cssparser::is_valid_start_ident('Z'));
    assert!(Cssparser::is_valid_start_ident('_'));
    assert!(Cssparser::is_valid_start_ident('\u{e9}'));
    assert!(!Cssparser::is_valid_start_ident('1'));
    assert!(!Cssparser::is_valid_start_ident('-'));
    assert!(!Cssparser::is_valid_start_ident(' '));
    assert!(!Cssparser::is_valid_start_ident('{'));
    assert!(Cssparser::is_valid_ident('1'));
    assert!(Cssparser::is_valid_ident('-'));
    assert!(!Cssparser::is_valid_ident('.'));
    assert!(!Cssparser::is_valid_ident('#'));
    assert!(Cssparser::is_letter('q'));
    assert!(!Cssparser::is_letter('\u{e9}'));
    assert!(Cssparser::is_upper_letter('Q'));
    assert!(!Cssparser::is_upper_letter('q'));
    assert!(Cssparser::is_lower_letter('q'));
    assert!(!Cssparser::is_lower_letter('Q'));
    assert!(Cssparser::is_non_ascii('\u{80}'));
    assert!(!Cssparser::is_non_ascii('\u{7f}'));
}

#[test]
fn a_size_as_a_whole_number() {
    assert_eq!(size("").whole(), Some(0));
    assert_eq!(size("0").whole(), Some(0));
    assert_eq!(size("007").whole(), Some(7));
    assert_eq!(size("1234567890").whole(), Some(1234567890));
    assert_eq!(size("18446744073709551615").whole(), Some(u64::MAX));
    assert_eq!(size("18446744073709551616").whole(), None);
    assert_eq!(size("99999999999999999999999999").whole(), None);
    assert_eq!(size("00000000000000000000000000042").whole(), Some(42));
    match Cssparser::translate_lenght("150%") {
        Value::Length(size, unit) => {
            assert_eq!(size.whole(), Some(150));
            assert_eq!(unit, Unit::Pct);
        }
        other => panic!("no length: {:?}", other),
    }
}

#[test]
fn a_size_is_the_number_its_digits_spell_as_a_float() {
    for word in ["0", "1", "10", "255", "16777217", "4294967296", "340282350000000000000000000000000000000"] {
        match Cssparser::translate_lenght(word) {
            Value::Length(size, _) => {
                let float: f32 = size.digits.parse().unwrap_or(0.0);
                assert_eq!(float, word.parse::<f32>().unwrap());
            }
            other => panic!("no length: {:?}", other),
        }
    }
}

#[test]
fn opaque_colors_from_parts() {
    assert_eq!(Color::from_parts(255, 0, 128, 255), Color { r: 1020, g: 0, b: 512, a: 1020 });
    assert_eq!(Color::from_parts(15, 1, 0, 15), Color { r: 1020, g: 68, b: 0, a: 1020 });
    assert_eq!(Color::from_parts(3, 4, 1, 5), Color { r: 612, g: 816, b: 204, a: 1020 });
    assert_eq!(Color::from_parts(1, 1, 0, 1), Color { r: 1020, g: 1020, b: 0, a: 1020 });
    assert_eq!(Color::default(), black());
}

#[test]
fn defaults_are_empty() {
    assert_eq!(Stylesheet::default(), Stylesheet { rules: vec![] });
    assert_eq!(Selector::default(), Selector { simple: vec![] });
    assert_eq!(SimpleSelector::default(), simple(None, None, &[]));
    assert!(SimpleSelector::default().is_empty());
    assert!(!simple(Some("p"), None, &[]).is_empty());
    assert!(!simple(None, Some("p"), &[]).is_empty());
    assert!(!simple(None, None, &["p"]).is_empty());
}

#[test]
fn constructors_keep_their_arguments() {
    let declaration = Declaration::new(text("color"), Value::Color(red()));
    assert_eq!(declaration.property, "color");
    assert_eq!(declaration.value, Value::Color(red()));
    let rule = Rule::new(vec![one(Some("p"), None, &[])], vec![declaration.clone()]);
    assert_eq!(rule.selectors, vec![one(Some("p"), None, &[])]);
    assert_eq!(rule.declarations, vec![declaration]);
}

#[test]
fn a_builder_keeps_the_first_id_and_drops_all_after_a_second() {
    let mut builder = SelectorBuilder::new(Some(text("div")));
    builder.add_id(Some(text("a")));
    builder.add_id(Some(text("b")));
    assert_eq!(builder.finish(), one(Some("div"), None, &[]));

    let mut builder = SelectorBuilder::new(None);
    builder.add_id(Some(text("a")));
    builder.add_id(None);
    builder.add_id(Some(text("c")));
    assert_eq!(builder.finish(), Selector { simple: vec![] });

    let mut builder = SelectorBuilder::new(None);
    builder.add_id(None);
    builder.add_id(Some(text("a")));
    assert_eq!(builder.finish(), one(None, Some("a"), &[]));
}

#[test]
fn a_builder_gathers_classes_that_are_not_empty() {
    let mut builder = SelectorBuilder::new(None);
    builder.add_class(text("x"));
    builder.add_class(text(""));
    builder.add_class(text("y"));
    builder.add_class(text("x"));
    assert_eq!(builder.finish(), one(None, None, &["x", "y", "x"]));
}

#[test]
fn a_builder_with_nothing_gives_an_empty_selector() {
    assert_eq!(SelectorBuilder::new(None).finish(), Selector { simple: vec![] });
    let mut builder = SelectorBuilder::new(None);
    builder.add_class(text(""));
    builder.add_id(None);
    assert_eq!(builder.finish(), Selector { simple: vec![] });
    assert_eq!(SelectorBuilder::new(Some(text("p"))).finish(), one(Some("p"), None, &[]));
}

#[test]
fn a_length_split_where_the_caller_says() {
    let chars: Vec<char> = "1.5em".chars().collect();
    assert_eq!(length_split_at(&chars, 1), Value::Length(size("1"), Unit::Px));
    assert_eq!(length_split_at(&chars, 0), Value::Length(size(""), Unit::Px));
    assert_eq!(length_split_at(&chars, 2), Value::Length(size(""), Unit::Px));
    assert_eq!(length_split_at(&chars, 3), Value::Length(size(""), Unit::Em));
    assert_eq!(length_split_at(&chars, 5), Value::Length(size(""), Unit::Px));
    let chars: Vec<char> = "12pt".chars().collect();
    assert_eq!(length_split_at(&chars, 2), Value::Length(size("12"), Unit::Pt));
    assert_eq!(length_split_at(&chars, 1), Value::Length(size("1"), Unit::Px));
}
