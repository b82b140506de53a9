//! The style sheet as data: rules, selectors, declarations and values, each
//! with the mathematical value that the contracts speak of.

use vstd::prelude::*;

verus! {

/// The unit of a length.
#[derive(Clone, Copy, Debug, PartialEq, Eq)]
pub enum Unit {
    Em,
    Ex,
    Rem,
    Ch,
    Vh,
    Vw,
    Vmin,
    Vmax,
    Px,
    Mm,
    Q,
    Cm,
    In,
    Pt,
    Pc,
    Pct,
}

/// A full channel. Channels are exact: each counts steps of 1/1020, the
/// coarsest step in which a byte out of 255, a hex digit out of 15, and the
/// halves, quarters and fifths of the keyword table are all whole.
pub const CHANNEL_MAX: u16 = 1020;

/// A colour of four channels, each between 0 and `CHANNEL_MAX`.
#[derive(Clone, Copy, Debug, PartialEq, Eq)]
pub struct Color {
    pub r: u16,
    pub g: u16,
    pub b: u16,
    pub a: u16,
}

impl Color {
    /// Every channel lies between nothing and full.
    pub open spec fn wf(self) -> bool {
        &&& self.r <= CHANNEL_MAX
        &&& self.g <= CHANNEL_MAX
        &&& self.b <= CHANNEL_MAX
        &&& self.a <= CHANNEL_MAX
    }

    /// Black, fully opaque: the colour of everything that is not understood.
    pub open spec fn black() -> Color {
        Color { r: 0, g: 0, b: 0, a: CHANNEL_MAX }
    }

    /// The opaque colour whose channels are `r`, `g` and `b` parts in `scale`.
    pub open spec fn opaque(r: int, g: int, b: int, scale: int) -> Color {
        Color {
            r: (r * (CHANNEL_MAX as int / scale)) as u16,
            g: (g * (CHANNEL_MAX as int / scale)) as u16,
            b: (b * (CHANNEL_MAX as int / scale)) as u16,
            a: CHANNEL_MAX,
        }
    }

    /// The opaque colour whose channels are `r`, `g` and `b` parts in `scale`.
    pub fn from_parts(r: u16, g: u16, b: u16, scale: u16) -> (color: Color)
        requires
            0 < scale,
            CHANNEL_MAX % scale == 0,
            r <= scale,
            g <= scale,
            b <= scale,
        ensures
            color == Color::opaque(r as int, g as int, b as int, scale as int),
            color.wf(),
    {
        let step: u16 = CHANNEL_MAX / scale;
        assert(scale * step == CHANNEL_MAX) by (nonlinear_arith)
            requires
                0 < scale,
                CHANNEL_MAX % scale == 0,
                step == CHANNEL_MAX / scale,
        ;
        assert(r * step <= scale * step && g * step <= scale * step && b * step <= scale
            * step) by (nonlinear_arith)
            requires
                r <= scale,
                g <= scale,
                b <= scale,
        ;
        Color { r: r * step, g: g * step, b: b * step, a: CHANNEL_MAX }
    }
}

impl Default for Color {
    fn default() -> (color: Color)
        ensures
            color == Color::black(),
    {
        Color { r: 0, g: 0, b: 0, a: CHANNEL_MAX }
    }
}

/// The number `digits` spells in base ten; a character that is no ASCII
/// digit counts as zero.
pub open spec fn decimal_value(digits: Seq<char>) -> nat
    decreases digits.len(),
{
    if digits.len() == 0 {
        0
    } else {
        let last = digits.last();
        let unit: nat = if '0' <= last <= '9' {
            (last as u32 - '0' as u32) as nat
        } else {
            0
        };
        10 * decimal_value(digits.drop_last()) + unit
    }
}

/// Whether every character of `digits` is an ASCII digit.
pub open spec fn all_digits(digits: Seq<char>) -> bool {
    forall|i: int| 0 <= i < digits.len() ==> '0' <= #[trigger] digits[i] <= '9'
}

/// The size of a length: a whole number of any size, kept as its decimal
/// digits. No digits at all stand for zero.
#[derive(Clone, Debug, PartialEq, Eq)]
pub struct Magnitude {
    pub digits: String,
}

impl Magnitude {
    /// The digits are ASCII digits and nothing else.
    pub open spec fn wf(&self) -> bool {
        all_digits(self.digits@)
    }

    /// The number that the digits spell.
    pub open spec fn value(&self) -> nat {
        decimal_value(self.digits@)
    }

    /// The number that the digits spell, if it is no larger than `u64::MAX`.
    pub fn whole(&self) -> (number: Option<u64>)
        ensures
            number matches Some(n) ==> n == self.value(),
            number is None <==> self.value() > u64::MAX,
    {
        let mut number: u64 = 0;
        let mut fits = true;
        for c in it: self.digits.as_str().chars()
            invariant
                it.seq() == self.digits@,
                fits ==> number == decimal_value(it.seq().take(it.index() as int)),
                !fits ==> decimal_value(it.seq().take(it.index() as int)) > u64::MAX,
        {
            let ghost before = it.seq().take(it.index() as int);
            let ghost after = it.seq().take(it.index() + 1);
            assert(after.drop_last() == before);
            assert(after.last() == c);
            let unit: u64 = if '0' <= c && c <= '9' {
                (c as u32 - '0' as u32) as u64
            } else {
                0
            };
            if fits && number <= (u64::MAX - unit) / 10 {
                number = number * 10 + unit;
            } else {
                fits = false;
            }
        }
        assert(self.digits@.take(self.digits@.len() as int) == self.digits@);
        if fits {
            Some(number)
        } else {
            None
        }
    }
}

/// The value of a declaration.
#[derive(Clone, Debug, PartialEq, Eq)]
pub enum Value {
    Color(Color),
    Length(Magnitude, Unit),
    Other(String),
}

/// What a `Value` is: its strings as sequences of characters, a length's
/// size as its digits.
pub enum ValueView {
    Color(Color),
    Length(Seq<char>, Unit),
    Other(Seq<char>),
}

impl ValueView {
    /// A colour has its channels in range, a length has only digits.
    pub open spec fn wf(self) -> bool {
        match self {
            ValueView::Color(color) => color.wf(),
            ValueView::Length(digits, _) => all_digits(digits),
            ValueView::Other(_) => true,
        }
    }
}

impl View for Value {
    type V = ValueView;

    open spec fn view(&self) -> ValueView {
        match self {
            Value::Color(color) => ValueView::Color(*color),
            Value::Length(size, unit) => ValueView::Length(size.digits@, *unit),
            Value::Other(text) => ValueView::Other(text@),
        }
    }
}

/// One `property: value` pair.
#[derive(Clone, Debug, PartialEq, Eq)]
pub struct Declaration {
    pub property: String,
    pub value: Value,
}

/// What a `Declaration` is.
pub struct DeclarationView {
    pub property: Seq<char>,
    pub value: ValueView,
}

impl View for Declaration {
    type V = DeclarationView;

    open spec fn view(&self) -> DeclarationView {
        DeclarationView { property: self.property@, value: self.value@ }
    }
}

impl Declaration {
    pub fn new(property: String, value: Value) -> (declaration: Declaration)
        ensures
            declaration@ == (DeclarationView { property: property@, value: value@ }),
    {
        Declaration { property, value }
    }
}

/// A tag name, an id and classes, each optional; no combinators.
#[derive(Clone, Debug, PartialEq, Eq)]
pub struct SimpleSelector {
    pub tag_name: Option<String>,
    pub id: Option<String>,
    pub classes: Vec<String>,
}

/// What a `SimpleSelector` is.
pub struct SimpleSelectorView {
    pub tag_name: Option<Seq<char>>,
    pub id: Option<Seq<char>>,
    pub classes: Seq<Seq<char>>,
}

impl SimpleSelectorView {
    /// The selector that names nothing.
    pub open spec fn empty() -> SimpleSelectorView {
        SimpleSelectorView { tag_name: None, id: None, classes: Seq::empty() }
    }

    /// Whether the selector names nothing: no tag, no id, no class.
    pub open spec fn is_empty(self) -> bool {
        self.tag_name is None && self.id is None && self.classes.len() == 0
    }
}

/// The characters of an optional string.
pub open spec fn text_of(text: Option<String>) -> Option<Seq<char>> {
    match text {
        Some(s) => Some(s@),
        None => None,
    }
}

impl View for SimpleSelector {
    type V = SimpleSelectorView;

    open spec fn view(&self) -> SimpleSelectorView {
        SimpleSelectorView {
            tag_name: text_of(self.tag_name),
            id: text_of(self.id),
            classes: self.classes@.map_values(|class: String| class@),
        }
    }
}

impl SimpleSelector {
    /// Whether the selector names nothing.
    pub fn is_empty(&self) -> (empty: bool)
        ensures
            empty == self@.is_empty(),
    {
        self.tag_name.is_none() && self.id.is_none() && self.classes.len() == 0
    }
}

impl Default for SimpleSelector {
    fn default() -> (selector: SimpleSelector)
        ensures
            selector@ == SimpleSelectorView::empty(),
    {
        let selector = SimpleSelector { tag_name: None, id: None, classes: Vec::new() };
        assert(selector@.classes =~= Seq::empty());
        selector
    }
}

/// A selector: no simple selector, or one.
#[derive(Clone, Debug, PartialEq, Eq)]
pub struct Selector {
    pub simple: Vec<SimpleSelector>,
}

/// What a `Selector` is.
pub struct SelectorView {
    pub simple: Seq<SimpleSelectorView>,
}

impl View for Selector {
    type V = SelectorView;

    open spec fn view(&self) -> SelectorView {
        SelectorView { simple: self.simple@.map_values(|simple: SimpleSelector| simple@) }
    }
}

impl Default for Selector {
    fn default() -> (selector: Selector)
        ensures
            selector@.simple.len() == 0,
    {
        Selector { simple: Vec::new() }
    }
}

/// The selectors of one block and its declarations.
#[derive(Clone, Debug, PartialEq, Eq)]
pub struct Rule {
    pub selectors: Vec<Selector>,
    pub declarations: Vec<Declaration>,
}

/// What a `Rule` is.
pub struct RuleView {
    pub selectors: Seq<SelectorView>,
    pub declarations: Seq<DeclarationView>,
}

impl View for Rule {
    type V = RuleView;

    open spec fn view(&self) -> RuleView {
        RuleView {
            selectors: self.selectors@.map_values(|selector: Selector| selector@),
            declarations: self.declarations@.map_values(|declaration: Declaration| declaration@),
        }
    }
}

impl Rule {
    /// Every value of the rule is well formed.
    pub open spec fn wf(&self) -> bool {
        forall|i: int|
            0 <= i < self.declarations@.len() ==> (#[trigger] self.declarations@[i])@.value.wf()
    }

    pub fn new(selectors: Vec<Selector>, declarations: Vec<Declaration>) -> (rule: Rule)
        ensures
            rule.selectors == selectors,
            rule.declarations == declarations,
    {
        Rule { selectors, declarations }
    }
}

/// The rules of a style sheet, in the order of the text.
#[derive(Clone, Debug, PartialEq, Eq)]
pub struct Stylesheet {
    pub rules: Vec<Rule>,
}

/// What a `Stylesheet` is.
pub struct StylesheetView {
    pub rules: Seq<RuleView>,
}

impl View for Stylesheet {
    type V = StylesheetView;

    open spec fn view(&self) -> StylesheetView {
        StylesheetView { rules: self.rules@.map_values(|rule: Rule| rule@) }
    }
}

impl Stylesheet {
    /// Every value of the sheet is well formed: each colour has its channels
    /// in range, each length only digits in its size.
    pub open spec fn wf(&self) -> bool {
        forall|i: int| 0 <= i < self.rules@.len() ==> (#[trigger] self.rules@[i]).wf()
    }
}

impl Default for Stylesheet {
    fn default() -> (sheet: Stylesheet)
        ensures
            sheet@.rules.len() == 0,
    {
        Stylesheet { rules: Vec::new() }
    }
}

} // verus!
