//! Lengths from text: a run of digits, then a unit.

use vstd::prelude::*;
use crate::css::{all_digits, Magnitude, Unit, Value, ValueView};
use crate::text::{counts_as_numeric, span_len, spells};

verus! {

/// The characters that the standard library counts as numeric.
pub open spec fn numerics() -> spec_fn(char) -> bool {
    |c: char| counts_as_numeric(c)
}

/// The unit that a suffix names; pixels if it names none.
pub open spec fn unit_of(suffix: Seq<char>) -> Unit {
    if suffix == "em"@ {
        Unit::Em
    } else if suffix == "ex"@ {
        Unit::Ex
    } else if suffix == "rem"@ {
        Unit::Rem
    } else if suffix == "ch"@ {
        Unit::Ch
    } else if suffix == "vh"@ {
        Unit::Vh
    } else if suffix == "vw"@ {
        Unit::Vw
    } else if suffix == "vmin"@ {
        Unit::Vmin
    } else if suffix == "vmax"@ {
        Unit::Vmax
    } else if suffix == "px"@ {
        Unit::Px
    } else if suffix == "mm"@ {
        Unit::Mm
    } else if suffix == "q"@ {
        Unit::Q
    } else if suffix == "cm"@ {
        Unit::Cm
    } else if suffix == "in"@ {
        Unit::In
    } else if suffix == "pt"@ {
        Unit::Pt
    } else if suffix == "pc"@ {
        Unit::Pc
    } else if suffix == "%"@ {
        Unit::Pct
    } else {
        Unit::Px
    }
}

/// The digits of a size. A numeric run that is not made of ASCII digits
/// alone is no number, and leaves no digits: the size is then zero.
pub open spec fn digits_of(run: Seq<char>) -> Seq<char> {
    if all_digits(run) {
        run
    } else {
        Seq::empty()
    }
}

/// The length that the text of a value stands for.
///
/// The size is the longest run of numeric characters at the start, and the
/// unit is everything after it: the first character that is not numeric ends
/// the size for good, so `1.5em` is the size 1 with the unknown unit `.5em`.
pub open spec fn length_of(value: Seq<char>) -> ValueView {
    length_split(value, span_len(value, numerics()) as int)
}

/// The length of a text whose first `run` characters are its size and whose
/// other characters are its unit.
pub open spec fn length_split(value: Seq<char>, run: int) -> ValueView {
    ValueView::Length(digits_of(value.take(run)), unit_of(value.skip(run)))
}

/// The unit that `suffix` names; pixels if it names none.
pub fn unit_from_text(suffix: &Vec<char>) -> (unit: Unit)
    ensures
        unit == unit_of(suffix@),
{
    if spells(suffix, "em") {
        Unit::Em
    } else if spells(suffix, "ex") {
        Unit::Ex
    } else if spells(suffix, "rem") {
        Unit::Rem
    } else if spells(suffix, "ch") {
        Unit::Ch
    } else if spells(suffix, "vh") {
        Unit::Vh
    } else if spells(suffix, "vw") {
        Unit::Vw
    } else if spells(suffix, "vmin") {
        Unit::Vmin
    } else if spells(suffix, "vmax") {
        Unit::Vmax
    } else if spells(suffix, "px") {
        Unit::Px
    } else if spells(suffix, "mm") {
        Unit::Mm
    } else if spells(suffix, "q") {
        Unit::Q
    } else if spells(suffix, "cm") {
        Unit::Cm
    } else if spells(suffix, "in") {
        Unit::In
    } else if spells(suffix, "pt") {
        Unit::Pt
    } else if spells(suffix, "pc") {
        Unit::Pc
    } else if spells(suffix, "%") {
        Unit::Pct
    } else {
        Unit::Px
    }
}

/// The length of a text whose first `run` characters are its size and whose
/// other characters are its unit.
pub fn length_split_at(chars: &Vec<char>, run: usize) -> (result: Value)
    requires
        run <= chars@.len(),
    ensures
        result@ == length_split(chars@, run as int),
        result@.wf(),
{
    let mut digits = String::new();
    let mut plain = true;
    let mut n: usize = 0;
    while n < run
        invariant
            n <= run <= chars@.len(),
            digits@ == chars@.take(n as int),
            plain == all_digits(chars@.take(n as int)),
        decreases run - n,
    {
        let c = chars[n];
        digits.push(c);
        let ghost before = chars@.take(n as int);
        n = n + 1;
        assert(chars@.take(n as int) == before.push(c));
        if !('0' <= c && c <= '9') {
            plain = false;
            assert(!all_digits(chars@.take(n as int))) by {
                assert(chars@.take(n as int)[n - 1] == c);
            }
        }
    }
    let mut suffix: Vec<char> = Vec::new();
    let mut k: usize = run;
    while k < chars.len()
        invariant
            run <= k <= chars@.len(),
            suffix@ == chars@.subrange(run as int, k as int),
        decreases chars@.len() - k,
    {
        suffix.push(chars[k]);
        k = k + 1;
    }
    assert(suffix@ == chars@.skip(run as int));
    let unit = unit_from_text(&suffix);
    if plain {
        Value::Length(Magnitude { digits }, unit)
    } else {
        Value::Length(Magnitude { digits: String::new() }, unit)
    }
}

} // verus!
