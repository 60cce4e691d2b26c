//! The colour model: a closed set of terminal colours and the escape
//! sequence that selects each of them as the foreground colour.

use crate::text::{chars_of, decimal, equals_str, push_decimal, string_of};
use vstd::prelude::*;

verus! {

/// A terminal colour: the sixteen named colours, one of the 256 indexed
/// colours, a 24-bit colour, or the terminal's own default.
#[derive(Clone, Copy, Debug, PartialEq, Eq, Structural, Hash)]
pub enum Color {
    Reset,
    Black,
    DarkGrey,
    Red,
    DarkRed,
    Green,
    DarkGreen,
    Yellow,
    DarkYellow,
    Blue,
    DarkBlue,
    Magenta,
    DarkMagenta,
    Cyan,
    DarkCyan,
    White,
    Grey,
    Rgb { r: u8, g: u8, b: u8 },
    AnsiValue(u8),
}

/// The escape character that opens every control sequence.
pub open spec fn esc() -> char {
    '\x1b'
}

/// The "select graphic rendition" sequence with the given parameters.
pub open spec fn sgr(params: Seq<char>) -> Seq<char> {
    seq![esc(), '['] + params + seq!['m']
}

/// The foreground code of a named colour: 30 to 37 for black, the dark
/// colours and grey, 90 to 97 for dark grey, the light colours and white.
pub open spec fn named_code(c: Color) -> Option<nat> {
    match c {
        Color::Black => Some(30),
        Color::DarkRed => Some(31),
        Color::DarkGreen => Some(32),
        Color::DarkYellow => Some(33),
        Color::DarkBlue => Some(34),
        Color::DarkMagenta => Some(35),
        Color::DarkCyan => Some(36),
        Color::Grey => Some(37),
        Color::DarkGrey => Some(90),
        Color::Red => Some(91),
        Color::Green => Some(92),
        Color::Yellow => Some(93),
        Color::Blue => Some(94),
        Color::Magenta => Some(95),
        Color::Cyan => Some(96),
        Color::White => Some(97),
        _ => None,
    }
}

/// The escape sequence that makes `c` the foreground colour.
pub open spec fn ansi(c: Color) -> Seq<char> {
    match c {
        Color::AnsiValue(n) => sgr(seq!['3', '8', ';', '5', ';'] + decimal(n as nat)),
        Color::Rgb { r, g, b } => sgr(
            seq!['3', '8', ';', '2', ';'] + decimal(r as nat) + seq![';'] + decimal(g as nat)
                + seq![';'] + decimal(b as nat),
        ),
        Color::Reset => sgr(seq!['0']),
        _ => sgr(decimal(named_code(c).unwrap())),
    }
}

/// The foreground code of a named colour, 0 for the others.
fn code_of(c: Color) -> (code: u64)
    ensures
        named_code(c) is Some ==> code == named_code(c).unwrap(),
        named_code(c) is None ==> code == 0,
{
    match c {
        Color::Black => 30,
        Color::DarkRed => 31,
        Color::DarkGreen => 32,
        Color::DarkYellow => 33,
        Color::DarkBlue => 34,
        Color::DarkMagenta => 35,
        Color::DarkCyan => 36,
        Color::Grey => 37,
        Color::DarkGrey => 90,
        Color::Red => 91,
        Color::Green => 92,
        Color::Yellow => 93,
        Color::Blue => 94,
        Color::Magenta => 95,
        Color::Cyan => 96,
        Color::White => 97,
        _ => 0,
    }
}

/// Appends to `out` the escape sequence that makes `c` the foreground colour.
pub fn push_ansi(out: &mut Vec<char>, c: Color)
    ensures
        final(out)@ == old(out)@ + ansi(c),
{
    let ghost before = out@;
    out.push('\x1b');
    out.push('[');
    match c {
        Color::AnsiValue(n) => {
            out.push('3');
            out.push('8');
            out.push(';');
            out.push('5');
            out.push(';');
            push_decimal(out, n as u64);
            out.push('m');
            assert(out@ =~= before + ansi(c));
        },
        Color::Rgb { r, g, b } => {
            out.push('3');
            out.push('8');
            out.push(';');
            out.push('2');
            out.push(';');
            push_decimal(out, r as u64);
            out.push(';');
            push_decimal(out, g as u64);
            out.push(';');
            push_decimal(out, b as u64);
            out.push('m');
            assert(out@ =~= before + ansi(c));
        },
        Color::Reset => {
            out.push('0');
            out.push('m');
            assert(out@ =~= before + ansi(c));
        },
        _ => {
            push_decimal(out, code_of(c));
            out.push('m');
            assert(out@ =~= before + ansi(c));
        },
    }
}

impl Color {
    /// The escape sequence that makes this colour the foreground colour.
    pub fn to_ansi(&self) -> (text: String)
        ensures
            text@ == ansi(*self),
    {
        let mut out: Vec<char> = Vec::new();
        push_ansi(&mut out, *self);
        assert(out@ =~= ansi(*self));
        string_of(&out)
    }
}

/// The colour that a symbolic foreground-colour name stands for.
pub open spec fn color_of_symbol(name: Seq<char>) -> Option<Color> {
    if name == "FF_COLOR_FG_BLACK"@ {
        Some(Color::Black)
    } else if name == "FF_COLOR_FG_RED"@ {
        Some(Color::DarkRed)
    } else if name == "FF_COLOR_FG_GREEN"@ {
        Some(Color::DarkGreen)
    } else if name == "FF_COLOR_FG_YELLOW"@ {
        Some(Color::DarkYellow)
    } else if name == "FF_COLOR_FG_BLUE"@ {
        Some(Color::DarkBlue)
    } else if name == "FF_COLOR_FG_MAGENTA"@ {
        Some(Color::DarkMagenta)
    } else if name == "FF_COLOR_FG_CYAN"@ {
        Some(Color::DarkCyan)
    } else if name == "FF_COLOR_FG_WHITE"@ {
        Some(Color::Grey)
    } else if name == "FF_COLOR_FG_DEFAULT"@ {
        Some(Color::Reset)
    } else if name == "FF_COLOR_FG_LIGHT_BLACK"@ {
        Some(Color::DarkGrey)
    } else if name == "FF_COLOR_FG_LIGHT_RED"@ {
        Some(Color::Red)
    } else if name == "FF_COLOR_FG_LIGHT_GREEN"@ {
        Some(Color::Green)
    } else if name == "FF_COLOR_FG_LIGHT_YELLOW"@ {
        Some(Color::Yellow)
    } else if name == "FF_COLOR_FG_LIGHT_BLUE"@ {
        Some(Color::Blue)
    } else if name == "FF_COLOR_FG_LIGHT_MAGENTA"@ {
        Some(Color::Magenta)
    } else if name == "FF_COLOR_FG_LIGHT_CYAN"@ {
        Some(Color::Cyan)
    } else if name == "FF_COLOR_FG_LIGHT_WHITE"@ {
        Some(Color::White)
    } else {
        None
    }
}

/// The colour that a symbolic foreground-colour name stands for. The names
/// are matched exactly; any other name gives `None`.
pub fn ansi_to_crossterm_color(ansi_name: &str) -> (color: Option<Color>)
    ensures
        color == color_of_symbol(ansi_name@),
{
    let name = chars_of(ansi_name);
    if equals_str(&name, "FF_COLOR_FG_BLACK") {
        Some(Color::Black)
    } else if equals_str(&name, "FF_COLOR_FG_RED") {
        Some(Color::DarkRed)
    } else if equals_str(&name, "FF_COLOR_FG_GREEN") {
        Some(Color::DarkGreen)
    } else if equals_str(&name, "FF_COLOR_FG_YELLOW") {
        Some(Color::DarkYellow)
    } else if equals_str(&name, "FF_COLOR_FG_BLUE") {
        Some(Color::DarkBlue)
    } else if equals_str(&name, "FF_COLOR_FG_MAGENTA") {
        Some(Color::DarkMagenta)
    } else if equals_str(&name, "FF_COLOR_FG_CYAN") {
        Some(Color::DarkCyan)
    } else if equals_str(&name, "FF_COLOR_FG_WHITE") {
        Some(Color::Grey)
    } else if equals_str(&name, "FF_COLOR_FG_DEFAULT") {
        Some(Color::Reset)
    } else if equals_str(&name, "FF_COLOR_FG_LIGHT_BLACK") {
        Some(Color::DarkGrey)
    } else if equals_str(&name, "FF_COLOR_FG_LIGHT_RED") {
        Some(Color::Red)
    } else if equals_str(&name, "FF_COLOR_FG_LIGHT_GREEN") {
        Some(Color::Green)
    } else if equals_str(&name, "FF_COLOR_FG_LIGHT_YELLOW") {
        Some(Color::Yellow)
    } else if equals_str(&name, "FF_COLOR_FG_LIGHT_BLUE") {
        Some(Color::Blue)
    } else if equals_str(&name, "FF_COLOR_FG_LIGHT_MAGENTA") {
        Some(Color::Magenta)
    } else if equals_str(&name, "FF_COLOR_FG_LIGHT_CYAN") {
        Some(Color::Cyan)
    } else if equals_str(&name, "FF_COLOR_FG_LIGHT_WHITE") {
        Some(Color::White)
    } else {
        None
    }
}

} // verus!
