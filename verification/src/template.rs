//! The placeholder language of logo lines. A line is read from left to
//! right as a run of pieces: a literal character, a colour selector
//! (`$3` or `${c3}`), or text that is swallowed without a trace.

use crate::color::{ansi, push_ansi, Color};
use crate::palette::Palette;
use crate::text::{find_char_from, is_digit, lemma_next_index_of, next_index_of};
use vstd::prelude::*;

verus! {

/// What one piece of a line contributes.
#[derive(Clone, Copy, Debug, PartialEq, Eq, Structural)]
pub enum Piece {
    /// A character that is shown as it stands.
    Literal(char),
    /// A placeholder that selects the colour of the key `$` and this digit.
    Select(char),
    /// A placeholder that names no colour key: nothing is shown.
    Skip,
}

/// The position of the first `}` at or after `from`; the length of the line
/// if there is none.
pub open spec fn brace_end(line: Seq<char>, from: int) -> int {
    next_index_of(line, '}', from)
}

/// Whether a `$` at position `i` opens the digit form `$N`.
pub open spec fn digit_form(line: Seq<char>, i: int) -> bool {
    i + 1 < line.len() && is_digit(line[i + 1])
}

/// Whether a `$` at position `i` opens the brace form `${...}`.
pub open spec fn brace_form(line: Seq<char>, i: int) -> bool {
    i + 1 < line.len() && line[i + 1] == '{'
}

/// Whether the text between the braces names a colour: the letter `c` and
/// one digit.
pub open spec fn names_color(enclosed: Seq<char>) -> bool {
    enclosed.len() == 2 && enclosed[0] == 'c' && is_digit(enclosed[1])
}

/// The piece that starts at position `i` of `line`.
pub open spec fn piece_at(line: Seq<char>, i: int) -> Piece
    recommends
        0 <= i < line.len(),
{
    if line[i] != '$' {
        Piece::Literal(line[i])
    } else if digit_form(line, i) {
        Piece::Select(line[i + 1])
    } else if brace_form(line, i) {
        let enclosed = line.subrange(i + 2, brace_end(line, i + 2));
        if names_color(enclosed) {
            Piece::Select(enclosed[1])
        } else {
            Piece::Skip
        }
    } else {
        Piece::Literal('$')
    }
}

/// The position just behind the piece that starts at position `i`.
pub open spec fn next_after(line: Seq<char>, i: int) -> int
    recommends
        0 <= i < line.len(),
{
    if line[i] != '$' {
        i + 1
    } else if digit_form(line, i) {
        i + 2
    } else if brace_form(line, i) {
        let end = brace_end(line, i + 2);
        if end < line.len() {
            end + 1
        } else {
            end
        }
    } else {
        i + 1
    }
}

/// Every piece is at least one character long and ends within the line.
pub proof fn lemma_next_after(line: Seq<char>, i: int)
    requires
        0 <= i < line.len(),
    ensures
        i < next_after(line, i) <= line.len(),
{
    if line[i] == '$' && !digit_form(line, i) && brace_form(line, i) {
        lemma_next_index_of(line, '}', i + 2);
    }
}

/// The number of literal characters from position `i` on.
pub open spec fn width_from(line: Seq<char>, i: int) -> nat
    decreases line.len() - i,
{
    if i < 0 || i >= line.len() {
        0
    } else {
        proof {
            lemma_next_after(line, i);
        }
        let here: nat = if piece_at(line, i) is Literal {
            1
        } else {
            0
        };
        here + width_from(line, next_after(line, i))
    }
}

/// The number of terminal columns that `line` takes once its placeholders
/// are gone: one for each literal character.
pub open spec fn display_width(line: Seq<char>) -> nat {
    width_from(line, 0)
}

/// The key that the digit `d` selects: `$` and the digit.
pub open spec fn key_of(d: char) -> Seq<char> {
    seq!['$', d]
}

/// The text that a piece puts out while `carried` is the colour in force.
pub open spec fn piece_text(palette: Map<Seq<char>, Color>, piece: Piece) -> Seq<char> {
    match piece {
        Piece::Literal(c) => seq![c],
        Piece::Select(d) => if palette.dom().contains(key_of(d)) {
            ansi(palette[key_of(d)])
        } else {
            Seq::empty()
        },
        Piece::Skip => Seq::empty(),
    }
}

/// The colour in force behind a piece, given the colour in force before it.
pub open spec fn piece_carry(
    palette: Map<Seq<char>, Color>,
    piece: Piece,
    carried: Option<Color>,
) -> Option<Color> {
    match piece {
        Piece::Select(d) => if palette.dom().contains(key_of(d)) {
            Some(palette[key_of(d)])
        } else {
            carried
        },
        _ => carried,
    }
}

/// The text put out for the pieces from position `i` on.
pub open spec fn text_from(palette: Map<Seq<char>, Color>, line: Seq<char>, i: int) -> Seq<char>
    decreases line.len() - i,
{
    if i < 0 || i >= line.len() {
        Seq::empty()
    } else {
        proof {
            lemma_next_after(line, i);
        }
        piece_text(palette, piece_at(line, i)) + text_from(palette, line, next_after(line, i))
    }
}

/// The colour in force at the end of the line, when `carried` is in force
/// at position `i`.
pub open spec fn carry_from(
    palette: Map<Seq<char>, Color>,
    line: Seq<char>,
    i: int,
    carried: Option<Color>,
) -> Option<Color>
    decreases line.len() - i,
{
    if i < 0 || i >= line.len() {
        carried
    } else {
        proof {
            lemma_next_after(line, i);
        }
        carry_from(
            palette,
            line,
            next_after(line, i),
            piece_carry(palette, piece_at(line, i), carried),
        )
    }
}

/// The escape sequence that takes up the carried colour at the start of a
/// line: none where no colour is carried.
pub open spec fn carry_prefix(carried: Option<Color>) -> Seq<char> {
    match carried {
        Some(c) => ansi(c),
        None => Seq::empty(),
    }
}

/// The rendering of `line`: the carried colour is taken up first, then each
/// piece puts out its text.
pub open spec fn rendered_line(
    palette: Map<Seq<char>, Color>,
    line: Seq<char>,
    carried: Option<Color>,
) -> Seq<char> {
    carry_prefix(carried) + text_from(palette, line, 0)
}

/// The colour carried on behind `line`.
pub open spec fn carried_after(
    palette: Map<Seq<char>, Color>,
    line: Seq<char>,
    carried: Option<Color>,
) -> Option<Color> {
    carry_from(palette, line, 0, carried)
}

/// Tests whether `c` is an ASCII decimal digit.
pub fn is_digit_char(c: char) -> (digit: bool)
    ensures
        digit == is_digit(c),
{
    '0' <= c && c <= '9'
}

/// Reads the piece that starts at position `i`.
pub(crate) fn read_piece(line: &Vec<char>, i: usize) -> (read: (Piece, usize))
    requires
        i < line@.len(),
    ensures
        read.0 == piece_at(line@, i as int),
        read.1 == next_after(line@, i as int),
        i < read.1 <= line@.len(),
{
    proof {
        lemma_next_after(line@, i as int);
    }
    let n = line.len();
    let c = line[i];
    if c != '$' {
        return (Piece::Literal(c), i + 1);
    }
    if i + 1 < n {
        let next = line[i + 1];
        if is_digit_char(next) {
            return (Piece::Select(next), i + 2);
        }
        if next == '{' {
            let end = find_char_from(line, '}', i + 2);
            let after = if end < n {
                end + 1
            } else {
                end
            };
            let ghost enclosed = line@.subrange(i + 2, end as int);
            if end - (i + 2) == 2 && line[i + 2] == 'c' && is_digit_char(line[i + 3]) {
                assert(enclosed[0] == line@[i + 2] && enclosed[1] == line@[i + 3]);
                return (Piece::Select(line[i + 3]), after);
            }
            proof {
                if enclosed.len() == 2 {
                    assert(enclosed[0] == line@[i + 2] && enclosed[1] == line@[i + 3]);
                }
            }
            return (Piece::Skip, after);
        }
    }
    (Piece::Literal('$'), i + 1)
}

/// The display width of `line`.
pub fn width_of(line: &Vec<char>) -> (width: usize)
    ensures
        width == display_width(line@),
        width <= line@.len(),
{
    let mut width: usize = 0;
    let mut i: usize = 0;
    while i < line.len()
        invariant
            i <= line@.len(),
            width <= i,
            width + width_from(line@, i as int) == display_width(line@),
        decreases line@.len() - i,
    {
        let (piece, next) = read_piece(line, i);
        if let Piece::Literal(_) = piece {
            width += 1;
        }
        i = next;
    }
    width
}

/// Renders `line` behind what `out` holds, with the colours of `palette`,
/// and returns the colour carried on behind the line.
pub fn render_into(
    out: &mut Vec<char>,
    palette: &Palette,
    line: &Vec<char>,
    carried: Option<Color>,
) -> (after: Option<Color>)
    ensures
        final(out)@ == old(out)@ + rendered_line(palette@, line@, carried),
        after == carried_after(palette@, line@, carried),
{
    if let Some(c) = carried {
        push_ansi(out, c);
    }
    let ghost start = out@;
    let mut current = carried;
    let mut i: usize = 0;
    let mut key: Vec<char> = Vec::new();
    key.push('$');
    key.push('0');
    while i < line.len()
        invariant
            i <= line@.len(),
            key@.len() == 2,
            key@[0] == '$',
            out@ + text_from(palette@, line@, i as int) == start + text_from(palette@, line@, 0),
            carry_from(palette@, line@, i as int, current) == carry_from(
                palette@,
                line@,
                0,
                carried,
            ),
        decreases line@.len() - i,
    {
        let ghost before = out@;
        let (piece, next) = read_piece(line, i);
        match piece {
            Piece::Literal(c) => {
                out.push(c);
                assert(out@ =~= before + piece_text(palette@, piece));
            },
            Piece::Select(d) => {
                key.set(1, d);
                assert(key@ =~= key_of(d));
                match palette.get_chars(&key) {
                    Some(color) => {
                        push_ansi(out, color);
                        current = Some(color);
                    },
                    None => {
                        assert(out@ =~= before + piece_text(palette@, piece));
                    },
                }
            },
            Piece::Skip => {
                assert(out@ =~= before + piece_text(palette@, piece));
            },
        }
        proof {
            let rest = text_from(palette@, line@, next as int);
            assert(text_from(palette@, line@, i as int) == piece_text(palette@, piece) + rest);
            assert(out@ + rest =~= before + (piece_text(palette@, piece) + rest));
        }
        i = next;
    }
    proof {
        assert(out@ =~= start + text_from(palette@, line@, 0));
        assert(out@ =~= old(out)@ + rendered_line(palette@, line@, carried));
    }
    current
}

} // verus!
