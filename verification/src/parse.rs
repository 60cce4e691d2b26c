//! Colour choices written as text: a colour name, a `#RRGGBB` literal or
//! the number of an indexed colour; and the overrides that a list of such
//! choices amounts to.

use crate::color::Color;
use crate::palette::Palette;
use crate::resolve::{index_key, lowercase, lowercase_of};
use crate::text::{
    all_digits, chars_of, digit_value, equals_str, is_digit, push_decimal, string_of,
};
use vstd::prelude::*;

verus! {

/// The colour that a lowercase colour name stands for. The light and the
/// bright names stand for the same colours as the plain ones.
pub open spec fn named_color(lower: Seq<char>) -> Option<Color> {
    if lower == "black"@ {
        Some(Color::Black)
    } else if lower == "red"@ {
        Some(Color::Red)
    } else if lower == "green"@ {
        Some(Color::Green)
    } else if lower == "yellow"@ {
        Some(Color::Yellow)
    } else if lower == "blue"@ {
        Some(Color::Blue)
    } else if lower == "magenta"@ {
        Some(Color::Magenta)
    } else if lower == "cyan"@ {
        Some(Color::Cyan)
    } else if lower == "white"@ {
        Some(Color::White)
    } else if lower == "darkred"@ {
        Some(Color::DarkRed)
    } else if lower == "darkgreen"@ {
        Some(Color::DarkGreen)
    } else if lower == "darkyellow"@ {
        Some(Color::DarkYellow)
    } else if lower == "darkblue"@ {
        Some(Color::DarkBlue)
    } else if lower == "darkmagenta"@ {
        Some(Color::DarkMagenta)
    } else if lower == "darkcyan"@ {
        Some(Color::DarkCyan)
    } else if lower == "darkgray"@ {
        Some(Color::DarkGrey)
    } else if lower == "darkgrey"@ {
        Some(Color::DarkGrey)
    } else if lower == "gray"@ {
        Some(Color::Grey)
    } else if lower == "grey"@ {
        Some(Color::Grey)
    } else if lower == "lightred"@ {
        Some(Color::Red)
    } else if lower == "brightred"@ {
        Some(Color::Red)
    } else if lower == "lightgreen"@ {
        Some(Color::Green)
    } else if lower == "brightgreen"@ {
        Some(Color::Green)
    } else if lower == "lightyellow"@ {
        Some(Color::Yellow)
    } else if lower == "brightyellow"@ {
        Some(Color::Yellow)
    } else if lower == "lightblue"@ {
        Some(Color::Blue)
    } else if lower == "brightblue"@ {
        Some(Color::Blue)
    } else if lower == "lightmagenta"@ {
        Some(Color::Magenta)
    } else if lower == "brightmagenta"@ {
        Some(Color::Magenta)
    } else if lower == "lightcyan"@ {
        Some(Color::Cyan)
    } else if lower == "brightcyan"@ {
        Some(Color::Cyan)
    } else if lower == "lightwhite"@ {
        Some(Color::White)
    } else if lower == "brightwhite"@ {
        Some(Color::White)
    } else if lower == "orange"@ {
        Some(Color::AnsiValue(208))
    } else if lower == "pink"@ {
        Some(Color::AnsiValue(213))
    } else if lower == "purple"@ {
        Some(Color::AnsiValue(141))
    } else if lower == "brown"@ {
        Some(Color::AnsiValue(130))
    } else if lower == "lime"@ {
        Some(Color::AnsiValue(118))
    } else if lower == "teal"@ {
        Some(Color::AnsiValue(51))
    } else if lower == "indigo"@ {
        Some(Color::AnsiValue(63))
    } else if lower == "violet"@ {
        Some(Color::AnsiValue(177))
    } else if lower == "gold"@ {
        Some(Color::AnsiValue(220))
    } else if lower == "silver"@ {
        Some(Color::AnsiValue(250))
    } else {
        None
    }
}

/// The value of a hexadecimal digit, in either case.
pub open spec fn hex_value(c: char) -> Option<nat> {
    if is_digit(c) {
        Some(digit_value(c))
    } else if c == 'a' || c == 'A' {
        Some(10)
    } else if c == 'b' || c == 'B' {
        Some(11)
    } else if c == 'c' || c == 'C' {
        Some(12)
    } else if c == 'd' || c == 'D' {
        Some(13)
    } else if c == 'e' || c == 'E' {
        Some(14)
    } else if c == 'f' || c == 'F' {
        Some(15)
    } else {
        None
    }
}

/// The value of the two hexadecimal digits `hi` and `lo`.
pub open spec fn hex_pair(hi: char, lo: char) -> Option<u8> {
    match (hex_value(hi), hex_value(lo)) {
        (Some(h), Some(l)) => Some((h * 16 + l) as u8),
        _ => None,
    }
}

/// The colour that a `#RRGGBB` literal stands for: `#` and exactly six
/// hexadecimal digits.
pub open spec fn hex_color(text: Seq<char>) -> Option<Color> {
    if text.len() == 7 && text[0] == '#' {
        match (hex_pair(text[1], text[2]), hex_pair(text[3], text[4]), hex_pair(text[5], text[6])) {
            (Some(r), Some(g), Some(b)) => Some(Color::Rgb { r, g, b }),
            _ => None,
        }
    } else {
        None
    }
}

/// The number that the decimal digits of `text` write.
pub open spec fn decimal_value(text: Seq<char>) -> nat
    decreases text.len(),
{
    if text.len() == 0 {
        0
    } else {
        decimal_value(text.drop_last()) * 10 + digit_value(text.last())
    }
}

/// The indexed colour that a bare decimal number stands for: one or more
/// digits that write a number up to 255.
pub open spec fn indexed_color(text: Seq<char>) -> Option<Color> {
    if text.len() > 0 && all_digits(text) && decimal_value(text) <= 255 {
        Some(Color::AnsiValue(decimal_value(text) as u8))
    } else {
        None
    }
}

/// The colour that `text` stands for, where `lower` is its lowercase form:
/// a colour name in any case, else a `#RRGGBB` literal, else the number of
/// an indexed colour. Any other text stands for no colour.
pub open spec fn parsed_color(text: Seq<char>, lower: Seq<char>) -> Option<Color> {
    match named_color(lower) {
        Some(c) => Some(c),
        None => match hex_color(text) {
            Some(c) => Some(c),
            None => indexed_color(text),
        },
    }
}

/// The colour that `text` stands for.
pub open spec fn color_of_text(text: Seq<char>) -> Option<Color> {
    parsed_color(text, lowercase_of(text))
}

/// A longer run of digits writes a number at least as large as any of its
/// beginnings.
pub proof fn lemma_decimal_value_grows(text: Seq<char>, n: int)
    requires
        0 <= n <= text.len(),
    ensures
        decimal_value(text.subrange(0, n)) <= decimal_value(text),
    decreases text.len() - n,
{
    if n < text.len() {
        lemma_decimal_value_grows(text, n + 1);
        let longer = text.subrange(0, n + 1);
        assert(longer.drop_last() =~= text.subrange(0, n));
    } else {
        assert(text.subrange(0, n) =~= text);
    }
}

fn named_color_of(lower: &Vec<char>) -> (color: Option<Color>)
    ensures
        color == named_color(lower@),
{
    if equals_str(lower, "black") {
        Some(Color::Black)
    } else if equals_str(lower, "red") {
        Some(Color::Red)
    } else if equals_str(lower, "green") {
        Some(Color::Green)
    } else if equals_str(lower, "yellow") {
        Some(Color::Yellow)
    } else if equals_str(lower, "blue") {
        Some(Color::Blue)
    } else if equals_str(lower, "magenta") {
        Some(Color::Magenta)
    } else if equals_str(lower, "cyan") {
        Some(Color::Cyan)
    } else if equals_str(lower, "white") {
        Some(Color::White)
    } else if equals_str(lower, "darkred") {
        Some(Color::DarkRed)
    } else if equals_str(lower, "darkgreen") {
        Some(Color::DarkGreen)
    } else if equals_str(lower, "darkyellow") {
        Some(Color::DarkYellow)
    } else if equals_str(lower, "darkblue") {
        Some(Color::DarkBlue)
    } else if equals_str(lower, "darkmagenta") {
        Some(Color::DarkMagenta)
    } else if equals_str(lower, "darkcyan") {
        Some(Color::DarkCyan)
    } else if equals_str(lower, "darkgray") {
        Some(Color::DarkGrey)
    } else if equals_str(lower, "darkgrey") {
        Some(Color::DarkGrey)
    } else if equals_str(lower, "gray") {
        Some(Color::Grey)
    } else if equals_str(lower, "grey") {
        Some(Color::Grey)
    } else if equals_str(lower, "lightred") {
        Some(Color::Red)
    } else if equals_str(lower, "brightred") {
        Some(Color::Red)
    } else if equals_str(lower, "lightgreen") {
        Some(Color::Green)
    } else if equals_str(lower, "brightgreen") {
        Some(Color::Green)
    } else if equals_str(lower, "lightyellow") {
        Some(Color::Yellow)
    } else if equals_str(lower, "brightyellow") {
        Some(Color::Yellow)
    } else if equals_str(lower, "lightblue") {
        Some(Color::Blue)
    } else if equals_str(lower, "brightblue") {
        Some(Color::Blue)
    } else if equals_str(lower, "lightmagenta") {
        Some(Color::Magenta)
    } else if equals_str(lower, "brightmagenta") {
        Some(Color::Magenta)
    } else if equals_str(lower, "lightcyan") {
        Some(Color::Cyan)
    } else if equals_str(lower, "brightcyan") {
        Some(Color::Cyan)
    } else if equals_str(lower, "lightwhite") {
        Some(Color::White)
    } else if equals_str(lower, "brightwhite") {
        Some(Color::White)
    } else if equals_str(lower, "orange") {
        Some(Color::AnsiValue(208))
    } else if equals_str(lower, "pink") {
        Some(Color::AnsiValue(213))
    } else if equals_str(lower, "purple") {
        Some(Color::AnsiValue(141))
    } else if equals_str(lower, "brown") {
        Some(Color::AnsiValue(130))
    } else if equals_str(lower, "lime") {
        Some(Color::AnsiValue(118))
    } else if equals_str(lower, "teal") {
        Some(Color::AnsiValue(51))
    } else if equals_str(lower, "indigo") {
        Some(Color::AnsiValue(63))
    } else if equals_str(lower, "violet") {
        Some(Color::AnsiValue(177))
    } else if equals_str(lower, "gold") {
        Some(Color::AnsiValue(220))
    } else if equals_str(lower, "silver") {
        Some(Color::AnsiValue(250))
    } else {
        None
    }
}

fn hex_value_of(c: char) -> (value: Option<u8>)
    ensures
        match value {
            Some(v) => hex_value(c) == Some(v as nat) && v < 16,
            None => hex_value(c) is None,
        },
{
    if c == '0' {
        Some(0)
    } else if c == '1' {
        Some(1)
    } else if c == '2' {
        Some(2)
    } else if c == '3' {
        Some(3)
    } else if c == '4' {
        Some(4)
    } else if c == '5' {
        Some(5)
    } else if c == '6' {
        Some(6)
    } else if c == '7' {
        Some(7)
    } else if c == '8' {
        Some(8)
    } else if c == '9' {
        Some(9)
    } else if c == 'a' || c == 'A' {
        Some(10)
    } else if c == 'b' || c == 'B' {
        Some(11)
    } else if c == 'c' || c == 'C' {
        Some(12)
    } else if c == 'd' || c == 'D' {
        Some(13)
    } else if c == 'e' || c == 'E' {
        Some(14)
    } else if c == 'f' || c == 'F' {
        Some(15)
    } else {
        None
    }
}

fn hex_pair_of(hi: char, lo: char) -> (value: Option<u8>)
    ensures
        value == hex_pair(hi, lo),
{
    match hex_value_of(hi) {
        Some(h) => match hex_value_of(lo) {
            Some(l) => Some(h * 16 + l),
            None => None,
        },
        None => None,
    }
}

fn hex_color_of(text: &Vec<char>) -> (color: Option<Color>)
    ensures
        color == hex_color(text@),
{
    if text.len() != 7 || text[0] != '#' {
        return None;
    }
    match hex_pair_of(text[1], text[2]) {
        Some(r) => match hex_pair_of(text[3], text[4]) {
            Some(g) => match hex_pair_of(text[5], text[6]) {
                Some(b) => Some(Color::Rgb { r, g, b }),
                None => None,
            },
            None => None,
        },
        None => None,
    }
}

fn indexed_color_of(text: &Vec<char>) -> (color: Option<Color>)
    ensures
        color == indexed_color(text@),
{
    if text.len() == 0 {
        return None;
    }
    let mut value: u32 = 0;
    let mut i: usize = 0;
    while i < text.len()
        invariant
            i <= text@.len(),
            value <= 255,
            value == decimal_value(text@.subrange(0, i as int)),
            forall|j: int| 0 <= j < i ==> is_digit(#[trigger] text@[j]),
        decreases text@.len() - i,
    {
        let c = text[i];
        match hex_value_of(c) {
            Some(d) => {
                if d >= 10 {
                    return None;
                }
                proof {
                    let longer = text@.subrange(0, i + 1);
                    assert(longer.drop_last() =~= text@.subrange(0, i as int));
                    assert(longer.last() == c);
                }
                value = value * 10 + d as u32;
                if value > 255 {
                    proof {
                        lemma_decimal_value_grows(text@, i + 1);
                    }
                    return None;
                }
            },
            None => {
                return None;
            },
        }
        i += 1;
    }
    proof {
        assert(text@.subrange(0, i as int) =~= text@);
    }
    Some(Color::AnsiValue(value as u8))
}

/// The colour that `color_str` stands for, where `lowered` is its
/// lowercase form.
pub fn parse_color_lowered(color_str: &str, lowered: &str) -> (color: Option<Color>)
    ensures
        color == parsed_color(color_str@, lowered@),
{
    let lower = chars_of(lowered);
    match named_color_of(&lower) {
        Some(c) => Some(c),
        None => {
            let text = chars_of(color_str);
            match hex_color_of(&text) {
                Some(c) => Some(c),
                None => indexed_color_of(&text),
            }
        },
    }
}

/// The colour that `color_str` stands for: a colour name in any case, a
/// `#RRGGBB` literal or the number of an indexed colour. Any other text is
/// turned down with `None`.
pub fn parse_color(color_str: &str) -> (color: Option<Color>)
    ensures
        color == color_of_text(color_str@),
{
    let lowered = lowercase(color_str);
    parse_color_lowered(color_str, lowered.as_str())
}

/// What a list of colour choices amounts to.
#[derive(Debug)]
pub struct Overrides {
    /// The colour of each choice that stands for one, under its key.
    pub palette: Palette,
    /// The positions of the choices that stand for no colour, in order.
    pub rejected: Vec<usize>,
}

/// The texts of a list of choices, where a choice was made.
pub open spec fn choice_texts(choices: Seq<Option<String>>) -> Seq<Option<Seq<char>>> {
    Seq::new(
        choices.len(),
        |i: int|
            match choices[i] {
                Some(s) => Some(s@),
                None => None,
            },
    )
}

/// The overrides that a list of choices amounts to: the choice at position
/// `i` gives its colour to the key `$` and the numeral of `i + 1`. A
/// position without a choice, or whose text stands for no colour, gives
/// nothing.
pub open spec fn overrides_of(choices: Seq<Option<Seq<char>>>) -> Map<Seq<char>, Color>
    decreases choices.len(),
{
    if choices.len() == 0 {
        Map::empty()
    } else {
        let rest = overrides_of(choices.drop_last());
        match choices.last() {
            Some(text) => match color_of_text(text) {
                Some(c) => rest.insert(index_key((choices.len() - 1) as nat), c),
                None => rest,
            },
            None => rest,
        }
    }
}

/// The positions of the choices whose text stands for no colour, in order.
pub open spec fn rejected_of(choices: Seq<Option<Seq<char>>>) -> Seq<usize>
    decreases choices.len(),
{
    if choices.len() == 0 {
        Seq::empty()
    } else {
        let rest = rejected_of(choices.drop_last());
        match choices.last() {
            Some(text) => match color_of_text(text) {
                Some(c) => rest,
                None => rest.push((choices.len() - 1) as usize),
            },
            None => rest,
        }
    }
}

/// Gathers the overrides that a list of choices amounts to. A choice whose
/// text stands for no colour is set aside in `rejected` and does not stand
/// in the way of the others.
pub fn get_color_overrides(choices: &Vec<Option<String>>) -> (overrides: Overrides)
    ensures
        overrides.palette@ == overrides_of(choice_texts(choices@)),
        overrides.rejected@ == rejected_of(choice_texts(choices@)),
{
    let mut palette = Palette::new();
    let mut rejected: Vec<usize> = Vec::new();
    let ghost texts = choice_texts(choices@);
    let mut i: usize = 0;
    while i < choices.len()
        invariant
            i <= choices@.len(),
            texts == choice_texts(choices@),
            palette@ == overrides_of(texts.subrange(0, i as int)),
            rejected@ == rejected_of(texts.subrange(0, i as int)),
        decreases choices@.len() - i,
    {
        proof {
            let longer = texts.subrange(0, i + 1);
            assert(longer.drop_last() =~= texts.subrange(0, i as int));
            assert(longer.last() == texts[i as int]);
        }
        match &choices[i] {
            Some(text) => {
                match parse_color(text.as_str()) {
                    Some(c) => {
                        let mut key: Vec<char> = Vec::new();
                        key.push('$');
                        push_decimal(&mut key, (i + 1) as u64);
                        assert(key@ =~= index_key(i as nat));
                        let key_text = string_of(&key);
                        palette.insert(key_text.as_str(), c);
                    },
                    None => {
                        rejected.push(i);
                    },
                }
            },
            None => {},
        }
        i += 1;
    }
    proof {
        assert(texts.subrange(0, i as int) =~= texts);
    }
    Overrides { palette, rejected }
}

} // verus!
