//! Colours from text: hex digits after `#`, and the keyword table.

use vstd::prelude::*;
use crate::css::{Color, CHANNEL_MAX};
use crate::text::spells;

verus! {

/// The value of a hex digit, in either case.
pub open spec fn hex_digit(c: char) -> Option<int> {
    if '0' <= c <= '9' {
        Some(c as int - '0' as int)
    } else if 'a' <= c <= 'f' {
        Some(c as int - 'a' as int + 10)
    } else if 'A' <= c <= 'F' {
        Some(c as int - 'A' as int + 10)
    } else {
        None
    }
}

/// A channel of one hex digit; anything else reads as zero.
pub open spec fn hex_one(c: char) -> int {
    match hex_digit(c) {
        Some(value) => value,
        None => 0,
    }
}

/// A channel of two characters, read as Rust reads a number in base 16: two
/// hex digits, or a plus sign and one hex digit. Anything else reads as zero.
pub open spec fn hex_two(high: char, low: char) -> int {
    if high == '+' {
        hex_one(low)
    } else {
        match (hex_digit(high), hex_digit(low)) {
            (Some(sixteens), Some(units)) => 16 * sixteens + units,
            _ => 0,
        }
    }
}

/// Whether `value` begins with the three characters given.
pub open spec fn begins_with(value: Seq<char>, first: char, second: char, third: char) -> bool {
    value.len() >= 3 && value[0] == first && value[1] == second && value[2] == third
}

/// The colour that a keyword names, if it names one.
///
/// The table keeps two scales apart. A few everyday colours are given in
/// coarse parts (silver is three quarters of full on every channel); all the
/// others are given in bytes out of 255. Either way the channels end up
/// between nothing and full.
pub open spec fn named_color(name: Seq<char>) -> Option<Color> {
    if name == "aliceblue"@ {
        Some(Color::opaque(240, 248, 255, 255))
    } else if name == "antiquewhite"@ {
        Some(Color::opaque(250, 235, 215, 255))
    } else if name == "aqua"@ {
        Some(Color::opaque(0, 255, 255, 255))
    } else if name == "aquamarine"@ {
        Some(Color::opaque(127, 255, 212, 255))
    } else if name == "azure"@ {
        Some(Color::opaque(240, 255, 255, 255))
    } else if name == "beige"@ {
        Some(Color::opaque(245, 245, 220, 255))
    } else if name == "bisque"@ {
        Some(Color::opaque(255, 228, 196, 255))
    } else if name == "black"@ {
        Some(Color::opaque(0, 0, 0, 1))
    } else if name == "blanchedalmond"@ {
        Some(Color::opaque(255, 235, 205, 255))
    } else if name == "blue"@ {
        Some(Color::opaque(0, 0, 1, 1))
    } else if name == "blueviolet"@ {
        Some(Color::opaque(138, 43, 226, 255))
    } else if name == "brown"@ {
        Some(Color::opaque(165, 42, 42, 255))
    } else if name == "burlywood"@ {
        Some(Color::opaque(222, 184, 135, 255))
    } else if name == "cadetblue"@ {
        Some(Color::opaque(95, 158, 160, 255))
    } else if name == "chartreuse"@ {
        Some(Color::opaque(127, 255, 0, 255))
    } else if name == "chocolate"@ {
        Some(Color::opaque(210, 105, 30, 255))
    } else if name == "coral"@ {
        Some(Color::opaque(255, 127, 80, 255))
    } else if name == "cornflowerblue"@ {
        Some(Color::opaque(100, 149, 237, 255))
    } else if name == "cornsilk"@ {
        Some(Color::opaque(255, 248, 220, 255))
    } else if name == "crimson"@ {
        Some(Color::opaque(220, 20, 60, 255))
    } else if name == "cyan"@ {
        Some(Color::opaque(0, 255, 255, 255))
    } else if name == "darkblue"@ {
        Some(Color::opaque(0, 0, 139, 255))
    } else if name == "darkcyan"@ {
        Some(Color::opaque(0, 139, 139, 255))
    } else if name == "darkgoldenrod"@ {
        Some(Color::opaque(184, 134, 11, 255))
    } else if name == "darkgray"@ {
        Some(Color::opaque(169, 169, 169, 255))
    } else if name == "darkgreen"@ {
        Some(Color::opaque(0, 100, 0, 255))
    } else if name == "darkgrey"@ {
        Some(Color::opaque(169, 169, 169, 255))
    } else if name == "darkkhaki"@ {
        Some(Color::opaque(189, 183, 107, 255))
    } else if name == "darkmagenta"@ {
        Some(Color::opaque(139, 0, 139, 255))
    } else if name == "darkolivegreen"@ {
        Some(Color::opaque(85, 107, 47, 255))
    } else if name == "darkorange"@ {
        Some(Color::opaque(255, 140, 0, 255))
    } else if name == "darkorchid"@ {
        Some(Color::opaque(153, 50, 204, 255))
    } else if name == "darkred"@ {
        Some(Color::opaque(139, 0, 0, 255))
    } else if name == "darksalmon"@ {
        Some(Color::opaque(233, 150, 122, 255))
    } else if name == "darkseagreen"@ {
        Some(Color::opaque(143, 188, 143, 255))
    } else if name == "darkslateblue"@ {
        Some(Color::opaque(72, 61, 139, 255))
    } else if name == "darkslategray"@ {
        Some(Color::opaque(47, 79, 79, 255))
    } else if name == "darkslategrey"@ {
        Some(Color::opaque(47, 79, 79, 255))
    } else if name == "darkturquoise"@ {
        Some(Color::opaque(0, 206, 209, 255))
    } else if name == "darkviolet"@ {
        Some(Color::opaque(148, 0, 211, 255))
    } else if name == "deeppink"@ {
        Some(Color::opaque(255, 20, 147, 255))
    } else if name == "deepskyblue"@ {
        Some(Color::opaque(0, 191, 255, 255))
    } else if name == "dimgray"@ {
        Some(Color::opaque(105, 105, 105, 255))
    } else if name == "dimgrey"@ {
        Some(Color::opaque(105, 105, 105, 255))
    } else if name == "dodgerblue"@ {
        Some(Color::opaque(30, 144, 255, 255))
    } else if name == "firebrick"@ {
        Some(Color::opaque(178, 34, 34, 255))
    } else if name == "floralwhite"@ {
        Some(Color::opaque(255, 250, 240, 255))
    } else if name == "forestgreen"@ {
        Some(Color::opaque(34, 139, 34, 255))
    } else if name == "fuchsia"@ {
        Some(Color::opaque(255, 0, 255, 255))
    } else if name == "gainsboro"@ {
        Some(Color::opaque(220, 220, 220, 255))
    } else if name == "ghostwhite"@ {
        Some(Color::opaque(248, 248, 255, 255))
    } else if name == "gold"@ {
        Some(Color::opaque(255, 215, 0, 255))
    } else if name == "goldenrod"@ {
        Some(Color::opaque(218, 165, 32, 255))
    } else if name == "gray"@ {
        Some(Color::opaque(1, 1, 1, 2))
    } else if name == "green"@ {
        Some(Color::opaque(0, 1, 0, 1))
    } else if name == "greenyellow"@ {
        Some(Color::opaque(173, 255, 47, 255))
    } else if name == "grey"@ {
        Some(Color::opaque(1, 1, 1, 2))
    } else if name == "honeydew"@ {
        Some(Color::opaque(240, 255, 240, 255))
    } else if name == "hotpink"@ {
        Some(Color::opaque(255, 105, 180, 255))
    } else if name == "indianred"@ {
        Some(Color::opaque(205, 92, 92, 255))
    } else if name == "indigo"@ {
        Some(Color::opaque(75, 0, 130, 255))
    } else if name == "ivory"@ {
        Some(Color::opaque(255, 255, 240, 255))
    } else if name == "khaki"@ {
        Some(Color::opaque(240, 230, 140, 255))
    } else if name == "lavender"@ {
        Some(Color::opaque(230, 230, 250, 255))
    } else if name == "lavenderblush"@ {
        Some(Color::opaque(255, 240, 245, 255))
    } else if name == "lawngreen"@ {
        Some(Color::opaque(124, 252, 0, 255))
    } else if name == "lemonchiffon"@ {
        Some(Color::opaque(255, 250, 205, 255))
    } else if name == "lightblue"@ {
        Some(Color::opaque(173, 216, 230, 255))
    } else if name == "lightcoral"@ {
        Some(Color::opaque(240, 128, 128, 255))
    } else if name == "lightcyan"@ {
        Some(Color::opaque(224, 255, 255, 255))
    } else if name == "lightgoldenrodyellow"@ {
        Some(Color::opaque(250, 250, 210, 255))
    } else if name == "lightgray"@ {
        Some(Color::opaque(211, 211, 211, 255))
    } else if name == "lightgreen"@ {
        Some(Color::opaque(144, 238, 144, 255))
    } else if name == "lightgrey"@ {
        Some(Color::opaque(211, 211, 211, 255))
    } else if name == "lightpink"@ {
        Some(Color::opaque(255, 182, 193, 255))
    } else if name == "lightsalmon"@ {
        Some(Color::opaque(255, 160, 122, 255))
    } else if name == "lightseagreen"@ {
        Some(Color::opaque(32, 178, 170, 255))
    } else if name == "lightskyblue"@ {
        Some(Color::opaque(135, 206, 250, 255))
    } else if name == "lightslategray"@ {
        Some(Color::opaque(119, 136, 153, 255))
    } else if name == "lightslategrey"@ {
        Some(Color::opaque(119, 136, 153, 255))
    } else if name == "lightsteelblue"@ {
        Some(Color::opaque(176, 196, 222, 255))
    } else if name == "lightyellow"@ {
        Some(Color::opaque(255, 255, 224, 255))
    } else if name == "lime"@ {
        Some(Color::opaque(0, 255, 0, 255))
    } else if name == "limegreen"@ {
        Some(Color::opaque(50, 205, 50, 255))
    } else if name == "linen"@ {
        Some(Color::opaque(250, 240, 230, 255))
    } else if name == "magenta"@ {
        Some(Color::opaque(255, 0, 255, 255))
    } else if name == "maroon"@ {
        Some(Color::opaque(128, 0, 0, 255))
    } else if name == "mediumaquamarine"@ {
        Some(Color::opaque(102, 205, 170, 255))
    } else if name == "mediumblue"@ {
        Some(Color::opaque(0, 0, 205, 255))
    } else if name == "mediumorchid"@ {
        Some(Color::opaque(186, 85, 211, 255))
    } else if name == "mediumpurple"@ {
        Some(Color::opaque(147, 112, 219, 255))
    } else if name == "mediumseagreen"@ {
        Some(Color::opaque(60, 179, 113, 255))
    } else if name == "mediumslateblue"@ {
        Some(Color::opaque(123, 104, 238, 255))
    } else if name == "mediumspringgreen"@ {
        Some(Color::opaque(0, 250, 154, 255))
    } else if name == "mediumturquoise"@ {
        Some(Color::opaque(72, 209, 204, 255))
    } else if name == "mediumvioletred"@ {
        Some(Color::opaque(199, 21, 133, 255))
    } else if name == "midnightblue"@ {
        Some(Color::opaque(25, 25, 112, 255))
    } else if name == "mintcream"@ {
        Some(Color::opaque(245, 255, 250, 255))
    } else if name == "mistyrose"@ {
        Some(Color::opaque(255, 228, 225, 255))
    } else if name == "moccasin"@ {
        Some(Color::opaque(255, 228, 181, 255))
    } else if name == "navajowhite"@ {
        Some(Color::opaque(255, 222, 173, 255))
    } else if name == "navy"@ {
        Some(Color::opaque(0, 0, 128, 255))
    } else if name == "oldlace"@ {
        Some(Color::opaque(253, 245, 230, 255))
    } else if name == "olive"@ {
        Some(Color::opaque(128, 128, 0, 255))
    } else if name == "olivedrab"@ {
        Some(Color::opaque(107, 142, 35, 255))
    } else if name == "orange"@ {
        Some(Color::opaque(2, 1, 0, 2))
    } else if name == "orangered"@ {
        Some(Color::opaque(255, 69, 0, 255))
    } else if name == "orchid"@ {
        Some(Color::opaque(218, 112, 214, 255))
    } else if name == "palegoldenrod"@ {
        Some(Color::opaque(238, 232, 170, 255))
    } else if name == "palegreen"@ {
        Some(Color::opaque(152, 251, 152, 255))
    } else if name == "paleturquoise"@ {
        Some(Color::opaque(175, 238, 238, 255))
    } else if name == "palevioletred"@ {
        Some(Color::opaque(219, 112, 147, 255))
    } else if name == "papayawhip"@ {
        Some(Color::opaque(255, 239, 213, 255))
    } else if name == "peachpuff"@ {
        Some(Color::opaque(255, 218, 185, 255))
    } else if name == "peru"@ {
        Some(Color::opaque(205, 133, 63, 255))
    } else if name == "pink"@ {
        Some(Color::opaque(255, 192, 203, 255))
    } else if name == "plum"@ {
        Some(Color::opaque(221, 160, 221, 255))
    } else if name == "powderblue"@ {
        Some(Color::opaque(176, 224, 230, 255))
    } else if name == "purple"@ {
        Some(Color::opaque(1, 0, 1, 2))
    } else if name == "red"@ {
        Some(Color::opaque(1, 0, 0, 1))
    } else if name == "rosybrown"@ {
        Some(Color::opaque(188, 143, 143, 255))
    } else if name == "royalblue"@ {
        Some(Color::opaque(65, 105, 225, 255))
    } else if name == "saddlebrown"@ {
        Some(Color::opaque(139, 69, 19, 255))
    } else if name == "salmon"@ {
        Some(Color::opaque(250, 128, 114, 255))
    } else if name == "sandybrown"@ {
        Some(Color::opaque(244, 164, 96, 255))
    } else if name == "seagreen"@ {
        Some(Color::opaque(46, 139, 87, 255))
    } else if name == "seashell"@ {
        Some(Color::opaque(255, 245, 238, 255))
    } else if name == "sienna"@ {
        Some(Color::opaque(160, 82, 45, 255))
    } else if name == "silver"@ {
        Some(Color::opaque(3, 3, 3, 4))
    } else if name == "skyblue"@ {
        Some(Color::opaque(135, 206, 235, 255))
    } else if name == "slateblue"@ {
        Some(Color::opaque(106, 90, 205, 255))
    } else if name == "slategray"@ {
        Some(Color::opaque(112, 128, 144, 255))
    } else if name == "slategrey"@ {
        Some(Color::opaque(112, 128, 144, 255))
    } else if name == "snow"@ {
        Some(Color::opaque(255, 250, 250, 255))
    } else if name == "springgreen"@ {
        Some(Color::opaque(0, 255, 127, 255))
    } else if name == "steelblue"@ {
        Some(Color::opaque(70, 130, 180, 255))
    } else if name == "tan"@ {
        Some(Color::opaque(210, 180, 140, 255))
    } else if name == "teal"@ {
        Some(Color::opaque(0, 128, 128, 255))
    } else if name == "thistle"@ {
        Some(Color::opaque(216, 191, 216, 255))
    } else if name == "tomato"@ {
        Some(Color::opaque(255, 99, 71, 255))
    } else if name == "turquoise"@ {
        Some(Color::opaque(64, 224, 208, 255))
    } else if name == "violet"@ {
        Some(Color::opaque(238, 130, 238, 255))
    } else if name == "wheat"@ {
        Some(Color::opaque(245, 222, 179, 255))
    } else if name == "white"@ {
        Some(Color::opaque(1, 1, 1, 1))
    } else if name == "whitesmoke"@ {
        Some(Color::opaque(245, 245, 245, 255))
    } else if name == "yellow"@ {
        Some(Color::opaque(255, 255, 0, 255))
    } else if name == "yellowgreen"@ {
        Some(Color::opaque(3, 4, 1, 5))
    } else {
        None
    }
}

/// The colour that the text of a value stands for.
///
/// After `#`, seven characters in all are three channels of two hex digits
/// and four are three channels of one; any other number of characters is
/// black. Functional notation (`rgb`, `hsl`) is not read and gives black. Any
/// other text is looked up as a keyword, and is black if it is none.
pub open spec fn color_of(value: Seq<char>) -> Color {
    if value.len() > 0 && value[0] == '#' {
        if value.len() == 7 {
            Color::opaque(
                hex_two(value[1], value[2]),
                hex_two(value[3], value[4]),
                hex_two(value[5], value[6]),
                255,
            )
        } else if value.len() == 4 {
            Color::opaque(hex_one(value[1]), hex_one(value[2]), hex_one(value[3]), 15)
        } else {
            Color::black()
        }
    } else if begins_with(value, 'r', 'g', 'b') || begins_with(value, 'h', 's', 'l') {
        Color::black()
    } else {
        match named_color(value) {
            Some(color) => color,
            None => Color::black(),
        }
    }
}

/// A hex digit is worth at most fifteen.
pub proof fn lemma_hex_in_range(high: char, low: char)
    ensures
        0 <= hex_one(low) <= 15,
        0 <= hex_two(high, low) <= 255,
{
}

/// Every keyword names an opaque colour with its channels in range.
pub proof fn lemma_named_color_in_range(name: Seq<char>)
    ensures
        named_color(name) matches Some(color) ==> color.wf() && color.a == CHANNEL_MAX,
{
}

/// Every text stands for an opaque colour with its channels in range:
/// between nothing and full, whatever was written.
pub proof fn lemma_color_in_range(value: Seq<char>)
    ensures
        color_of(value).wf(),
        color_of(value).a == CHANNEL_MAX,
{
    lemma_named_color_in_range(value);
    if value.len() == 7 {
        lemma_hex_in_range(value[1], value[2]);
        lemma_hex_in_range(value[3], value[4]);
        lemma_hex_in_range(value[5], value[6]);
    }
    if value.len() == 4 {
        lemma_hex_in_range(value[1], value[1]);
        lemma_hex_in_range(value[2], value[2]);
        lemma_hex_in_range(value[3], value[3]);
    }
}

/// Functional notation is not read: a text that begins with `rgb` or `hsl`
/// is black.
pub proof fn lemma_functional_notation_is_black(value: Seq<char>)
    requires
        begins_with(value, 'r', 'g', 'b') || begins_with(value, 'h', 's', 'l'),
    ensures
        color_of(value) == Color::black(),
{
}

/// The value of a hex digit, in either case.
pub fn hex_digit_value(c: char) -> (value: Option<u16>)
    ensures
        value is Some <==> hex_digit(c) is Some,
        value matches Some(v) ==> v == hex_digit(c)->0 && v <= 15,
{
    let code: u32 = c as u32;
    if '0' <= c && c <= '9' {
        Some((code - '0' as u32) as u16)
    } else if 'a' <= c && c <= 'f' {
        Some((code - 'a' as u32 + 10) as u16)
    } else if 'A' <= c && c <= 'F' {
        Some((code - 'A' as u32 + 10) as u16)
    } else {
        None
    }
}

/// A channel of one hex digit.
pub fn hex_channel_one(c: char) -> (value: u16)
    ensures
        value == hex_one(c),
        value <= 15,
{
    match hex_digit_value(c) {
        Some(value) => value,
        None => 0,
    }
}

/// A channel of two characters.
pub fn hex_channel_two(high: char, low: char) -> (value: u16)
    ensures
        value == hex_two(high, low),
        value <= 255,
{
    if high == '+' {
        hex_channel_one(low)
    } else {
        match (hex_digit_value(high), hex_digit_value(low)) {
            (Some(sixteens), Some(units)) => 16 * sixteens + units,
            _ => 0,
        }
    }
}

/// Looks a keyword up in the table.
pub fn lookup_named_color(name: &Vec<char>) -> (color: Option<Color>)
    ensures
        color == named_color(name@),
        color matches Some(c) ==> c.wf(),
{
    if spells(name, "aliceblue") {
        Some(Color::from_parts(240, 248, 255, 255))
    } else if spells(name, "antiquewhite") {
        Some(Color::from_parts(250, 235, 215, 255))
    } else if spells(name, "aqua") {
        Some(Color::from_parts(0, 255, 255, 255))
    } else if spells(name, "aquamarine") {
        Some(Color::from_parts(127, 255, 212, 255))
    } else if spells(name, "azure") {
        Some(Color::from_parts(240, 255, 255, 255))
    } else if spells(name, "beige") {
        Some(Color::from_parts(245, 245, 220, 255))
    } else if spells(name, "bisque") {
        Some(Color::from_parts(255, 228, 196, 255))
    } else if spells(name, "black") {
        Some(Color::from_parts(0, 0, 0, 1))
    } else if spells(name, "blanchedalmond") {
        Some(Color::from_parts(255, 235, 205, 255))
    } else if spells(name, "blue") {
        Some(Color::from_parts(0, 0, 1, 1))
    } else if spells(name, "blueviolet") {
        Some(Color::from_parts(138, 43, 226, 255))
    } else if spells(name, "brown") {
        Some(Color::from_parts(165, 42, 42, 255))
    } else if spells(name, "burlywood") {
        Some(Color::from_parts(222, 184, 135, 255))
    } else if spells(name, "cadetblue") {
        Some(Color::from_parts(95, 158, 160, 255))
    } else if spells(name, "chartreuse") {
        Some(Color::from_parts(127, 255, 0, 255))
    } else if spells(name, "chocolate") {
        Some(Color::from_parts(210, 105, 30, 255))
    } else if spells(name, "coral") {
        Some(Color::from_parts(255, 127, 80, 255))
    } else if spells(name, "cornflowerblue") {
        Some(Color::from_parts(100, 149, 237, 255))
    } else if spells(name, "cornsilk") {
        Some(Color::from_parts(255, 248, 220, 255))
    } else if spells(name, "crimson") {
        Some(Color::from_parts(220, 20, 60, 255))
    } else if spells(name, "cyan") {
        Some(Color::from_parts(0, 255, 255, 255))
    } else if spells(name, "darkblue") {
        Some(Color::from_parts(0, 0, 139, 255))
    } else if spells(name, "darkcyan") {
        Some(Color::from_parts(0, 139, 139, 255))
    } else if spells(name, "darkgoldenrod") {
        Some(Color::from_parts(184, 134, 11, 255))
    } else if spells(name, "darkgray") {
        Some(Color::from_parts(169, 169, 169, 255))
    } else if spells(name, "darkgreen") {
        Some(Color::from_parts(0, 100, 0, 255))
    } else if spells(name, "darkgrey") {
        Some(Color::from_parts(169, 169, 169, 255))
    } else if spells(name, "darkkhaki") {
        Some(Color::from_parts(189, 183, 107, 255))
    } else if spells(name, "darkmagenta") {
        Some(Color::from_parts(139, 0, 139, 255))
    } else if spells(name, "darkolivegreen") {
        Some(Color::from_parts(85, 107, 47, 255))
    } else if spells(name, "darkorange") {
        Some(Color::from_parts(255, 140, 0, 255))
    } else if spells(name, "darkorchid") {
        Some(Color::from_parts(153, 50, 204, 255))
    } else if spells(name, "darkred") {
        Some(Color::from_parts(139, 0, 0, 255))
    } else if spells(name, "darksalmon") {
        Some(Color::from_parts(233, 150, 122, 255))
    } else if spells(name, "darkseagreen") {
        Some(Color::from_parts(143, 188, 143, 255))
    } else if spells(name, "darkslateblue") {
        Some(Color::from_parts(72, 61, 139, 255))
    } else if spells(name, "darkslategray") {
        Some(Color::from_parts(47, 79, 79, 255))
    } else if spells(name, "darkslategrey") {
        Some(Color::from_parts(47, 79, 79, 255))
    } else if spells(name, "darkturquoise") {
        Some(Color::from_parts(0, 206, 209, 255))
    } else if spells(name, "darkviolet") {
        Some(Color::from_parts(148, 0, 211, 255))
    } else if spells(name, "deeppink") {
        Some(Color::from_parts(255, 20, 147, 255))
    } else if spells(name, "deepskyblue") {
        Some(Color::from_parts(0, 191, 255, 255))
    } else if spells(name, "dimgray") {
        Some(Color::from_parts(105, 105, 105, 255))
    } else if spells(name, "dimgrey") {
        Some(Color::from_parts(105, 105, 105, 255))
    } else if spells(name, "dodgerblue") {
        Some(Color::from_parts(30, 144, 255, 255))
    } else if spells(name, "firebrick") {
        Some(Color::from_parts(178, 34, 34, 255))
    } else if spells(name, "floralwhite") {
        Some(Color::from_parts(255, 250, 240, 255))
    } else if spells(name, "forestgreen") {
        Some(Color::from_parts(34, 139, 34, 255))
    } else if spells(name, "fuchsia") {
        Some(Color::from_parts(255, 0, 255, 255))
    } else if spells(name, "gainsboro") {
        Some(Color::from_parts(220, 220, 220, 255))
    } else if spells(name, "ghostwhite") {
        Some(Color::from_parts(248, 248, 255, 255))
    } else if spells(name, "gold") {
        Some(Color::from_parts(255, 215, 0, 255))
    } else if spells(name, "goldenrod") {
        Some(Color::from_parts(218, 165, 32, 255))
    } else if spells(name, "gray") {
        Some(Color::from_parts(1, 1, 1, 2))
    } else if spells(name, "green") {
        Some(Color::from_parts(0, 1, 0, 1))
    } else if spells(name, "greenyellow") {
        Some(Color::from_parts(173, 255, 47, 255))
    } else if spells(name, "grey") {
        Some(Color::from_parts(1, 1, 1, 2))
    } else if spells(name, "honeydew") {
        Some(Color::from_parts(240, 255, 240, 255))
    } else if spells(name, "hotpink") {
        Some(Color::from_parts(255, 105, 180, 255))
    } else if spells(name, "indianred") {
        Some(Color::from_parts(205, 92, 92, 255))
    } else if spells(name, "indigo") {
        Some(Color::from_parts(75, 0, 130, 255))
    } else if spells(name, "ivory") {
        Some(Color::from_parts(255, 255, 240, 255))
    } else if spells(name, "khaki") {
        Some(Color::from_parts(240, 230, 140, 255))
    } else if spells(name, "lavender") {
        Some(Color::from_parts(230, 230, 250, 255))
    } else if spells(name, "lavenderblush") {
        Some(Color::from_parts(255, 240, 245, 255))
    } else if spells(name, "lawngreen") {
        Some(Color::from_parts(124, 252, 0, 255))
    } else if spells(name, "lemonchiffon") {
        Some(Color::from_parts(255, 250, 205, 255))
    } else if spells(name, "lightblue") {
        Some(Color::from_parts(173, 216, 230, 255))
    } else if spells(name, "lightcoral") {
        Some(Color::from_parts(240, 128, 128, 255))
    } else if spells(name, "lightcyan") {
        Some(Color::from_parts(224, 255, 255, 255))
    } else if spells(name, "lightgoldenrodyellow") {
        Some(Color::from_parts(250, 250, 210, 255))
    } else if spells(name, "lightgray") {
        Some(Color::from_parts(211, 211, 211, 255))
    } else if spells(name, "lightgreen") {
        Some(Color::from_parts(144, 238, 144, 255))
    } else if spells(name, "lightgrey") {
        Some(Color::from_parts(211, 211, 211, 255))
    } else if spells(name, "lightpink") {
        Some(Color::from_parts(255, 182, 193, 255))
    } else if spells(name, "lightsalmon") {
        Some(Color::from_parts(255, 160, 122, 255))
    } else if spells(name, "lightseagreen") {
        Some(Color::from_parts(32, 178, 170, 255))
    } else if spells(name, "lightskyblue") {
        Some(Color::from_parts(135, 206, 250, 255))
    } else if spells(name, "lightslategray") {
        Some(Color::from_parts(119, 136, 153, 255))
    } else if spells(name, "lightslategrey") {
        Some(Color::from_parts(119, 136, 153, 255))
    } else if spells(name, "lightsteelblue") {
        Some(Color::from_parts(176, 196, 222, 255))
    } else if spells(name, "lightyellow") {
        Some(Color::from_parts(255, 255, 224, 255))
    } else if spells(name, "lime") {
        Some(Color::from_parts(0, 255, 0, 255))
    } else if spells(name, "limegreen") {
        Some(Color::from_parts(50, 205, 50, 255))
    } else if spells(name, "linen") {
        Some(Color::from_parts(250, 240, 230, 255))
    } else if spells(name, "magenta") {
        Some(Color::from_parts(255, 0, 255, 255))
    } else if spells(name, "maroon") {
        Some(Color::from_parts(128, 0, 0, 255))
    } else if spells(name, "mediumaquamarine") {
        Some(Color::from_parts(102, 205, 170, 255))
    } else if spells(name, "mediumblue") {
        Some(Color::from_parts(0, 0, 205, 255))
    } else if spells(name, "mediumorchid") {
        Some(Color::from_parts(186, 85, 211, 255))
    } else if spells(name, "mediumpurple") {
        Some(Color::from_parts(147, 112, 219, 255))
    } else if spells(name, "mediumseagreen") {
        Some(Color::from_parts(60, 179, 113, 255))
    } else if spells(name, "mediumslateblue") {
        Some(Color::from_parts(123, 104, 238, 255))
    } else if spells(name, "mediumspringgreen") {
        Some(Color::from_parts(0, 250, 154, 255))
    } else if spells(name, "mediumturquoise") {
        Some(Color::from_parts(72, 209, 204, 255))
    } else if spells(name, "mediumvioletred") {
        Some(Color::from_parts(199, 21, 133, 255))
    } else if spells(name, "midnightblue") {
        Some(Color::from_parts(25, 25, 112, 255))
    } else if spells(name, "mintcream") {
        Some(Color::from_parts(245, 255, 250, 255))
    } else if spells(name, "mistyrose") {
        Some(Color::from_parts(255, 228, 225, 255))
    } else if spells(name, "moccasin") {
        Some(Color::from_parts(255, 228, 181, 255))
    } else if spells(name, "navajowhite") {
        Some(Color::from_parts(255, 222, 173, 255))
    } else if spells(name, "navy") {
        Some(Color::from_parts(0, 0, 128, 255))
    } else if spells(name, "oldlace") {
        Some(Color::from_parts(253, 245, 230, 255))
    } else if spells(name, "olive") {
        Some(Color::from_parts(128, 128, 0, 255))
    } else if spells(name, "olivedrab") {
        Some(Color::from_parts(107, 142, 35, 255))
    } else if spells(name, "orange") {
        Some(Color::from_parts(2, 1, 0, 2))
    } else if spells(name, "orangered") {
        Some(Color::from_parts(255, 69, 0, 255))
    } else if spells(name, "orchid") {
        Some(Color::from_parts(218, 112, 214, 255))
    } else if spells(name, "palegoldenrod") {
        Some(Color::from_parts(238, 232, 170, 255))
    } else if spells(name, "palegreen") {
        Some(Color::from_parts(152, 251, 152, 255))
    } else if spells(name, "paleturquoise") {
        Some(Color::from_parts(175, 238, 238, 255))
    } else if spells(name, "palevioletred") {
        Some(Color::from_parts(219, 112, 147, 255))
    } else if spells(name, "papayawhip") {
        Some(Color::from_parts(255, 239, 213, 255))
    } else if spells(name, "peachpuff") {
        Some(Color::from_parts(255, 218, 185, 255))
    } else if spells(name, "peru") {
        Some(Color::from_parts(205, 133, 63, 255))
    } else if spells(name, "pink") {
        Some(Color::from_parts(255, 192, 203, 255))
    } else if spells(name, "plum") {
        Some(Color::from_parts(221, 160, 221, 255))
    } else if spells(name, "powderblue") {
        Some(Color::from_parts(176, 224, 230, 255))
    } else if spells(name, "purple") {
        Some(Color::from_parts(1, 0, 1, 2))
    } else if spells(name, "red") {
        Some(Color::from_parts(1, 0, 0, 1))
    } else if spells(name, "rosybrown") {
        Some(Color::from_parts(188, 143, 143, 255))
    } else if spells(name, "royalblue") {
        Some(Color::from_parts(65, 105, 225, 255))
    } else if spells(name, "saddlebrown") {
        Some(Color::from_parts(139, 69, 19, 255))
    } else if spells(name, "salmon") {
        Some(Color::from_parts(250, 128, 114, 255))
    } else if spells(name, "sandybrown") {
        Some(Color::from_parts(244, 164, 96, 255))
    } else if spells(name, "seagreen") {
        Some(Color::from_parts(46, 139, 87, 255))
    } else if spells(name, "seashell") {
        Some(Color::from_parts(255, 245, 238, 255))
    } else if spells(name, "sienna") {
        Some(Color::from_parts(160, 82, 45, 255))
    } else if spells(name, "silver") {
        Some(Color::from_parts(3, 3, 3, 4))
    } else if spells(name, "skyblue") {
        Some(Color::from_parts(135, 206, 235, 255))
    } else if spells(name, "slateblue") {
        Some(Color::from_parts(106, 90, 205, 255))
    } else if spells(name, "slategray") {
        Some(Color::from_parts(112, 128, 144, 255))
    } else if spells(name, "slategrey") {
        Some(Color::from_parts(112, 128, 144, 255))
    } else if spells(name, "snow") {
        Some(Color::from_parts(255, 250, 250, 255))
    } else if spells(name, "springgreen") {
        Some(Color::from_parts(0, 255, 127, 255))
    } else if spells(name, "steelblue") {
        Some(Color::from_parts(70, 130, 180, 255))
    } else if spells(name, "tan") {
        Some(Color::from_parts(210, 180, 140, 255))
    } else if spells(name, "teal") {
        Some(Color::from_parts(0, 128, 128, 255))
    } else if spells(name, "thistle") {
        Some(Color::from_parts(216, 191, 216, 255))
    } else if spells(name, "tomato") {
        Some(Color::from_parts(255, 99, 71, 255))
    } else if spells(name, "turquoise") {
        Some(Color::from_parts(64, 224, 208, 255))
    } else if spells(name, "violet") {
        Some(Color::from_parts(238, 130, 238, 255))
    } else if spells(name, "wheat") {
        Some(Color::from_parts(245, 222, 179, 255))
    } else if spells(name, "white") {
        Some(Color::from_parts(1, 1, 1, 1))
    } else if spells(name, "whitesmoke") {
        Some(Color::from_parts(245, 245, 245, 255))
    } else if spells(name, "yellow") {
        Some(Color::from_parts(255, 255, 0, 255))
    } else if spells(name, "yellowgreen") {
        Some(Color::from_parts(3, 4, 1, 5))
    } else {
        None
    }
}

} // verus!
