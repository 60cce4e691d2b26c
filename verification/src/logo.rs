//! Logos: the lines of a logo with the palette that colours them, the
//! limits that a logo source must keep, and the measuring and rendering of
//! single lines.

use crate::color::{esc, Color};
use crate::palette::Palette;
use crate::resolve::{
    default_colors, lowercase_of, palette_from, palette_of, resolve, resolved_palette,
};
use crate::template::{
    carried_after, display_width, render_into, rendered_line, width_of,
};
use crate::text::{
    chars_of, decimal, find_char_from, lemma_next_index_of, next_index_of, push_decimal,
    push_str, slice_of, string_of,
};
use vstd::prelude::*;

verus! {

/// The most bytes that a logo source may have.
pub const MAX_LOGO_SIZE: u64 = 16384;

/// The most lines that a logo may have.
pub const MAX_LINES: usize = 100;

/// The most columns that a line of a logo may take.
pub const MAX_LINE_WIDTH: usize = 200;

/// A logo: its lines as they were written, placeholders included, and the
/// palette that its placeholders select from.
#[derive(Debug)]
pub struct Logo {
    pub lines: Vec<String>,
    pub colors: Palette,
}

/// Why a logo could not be had.
#[derive(Clone, Debug, PartialEq, Eq)]
pub enum LogoError {
    /// The source has more than `MAX_LOGO_SIZE` bytes.
    TooLarge { size: u64 },
    /// The source holds an escape character.
    EscapeSequences,
    /// The source has more than `MAX_LINES` lines.
    TooManyLines { count: usize },
    /// The line with this number, counted from one, takes this many
    /// columns, more than `MAX_LINE_WIDTH`.
    LineTooWide { line: usize, width: usize },
    /// No source was found for a logo of this name.
    NotFound { name: String },
}

/// The text that reports `e`.
pub open spec fn message_text(e: LogoError) -> Seq<char> {
    match e {
        LogoError::TooLarge { size } => "Logo file too large: "@ + decimal(size as nat)
            + " bytes (max: "@ + decimal(MAX_LOGO_SIZE as nat) + " bytes)"@,
        LogoError::EscapeSequences => "Logo file contains ANSI escape sequences"@,
        LogoError::TooManyLines { count } => "Logo has too many lines: "@ + decimal(count as nat)
            + " (max: "@ + decimal(MAX_LINES as nat) + ")"@,
        LogoError::LineTooWide { line, width } => "Line "@ + decimal(line as nat)
            + " is too wide: "@ + decimal(width as nat) + " chars (max: "@ + decimal(
            MAX_LINE_WIDTH as nat,
        ) + ")"@,
        LogoError::NotFound { name } => "Logo '"@ + name@ + "' not found"@,
    }
}

impl LogoError {
    /// The text that reports this error.
    pub fn message(&self) -> (text: String)
        ensures
            text@ == message_text(*self),
    {
        let mut out: Vec<char> = Vec::new();
        match self {
            LogoError::TooLarge { size } => {
                push_str(&mut out, "Logo file too large: ");
                push_decimal(&mut out, *size);
                push_str(&mut out, " bytes (max: ");
                push_decimal(&mut out, MAX_LOGO_SIZE);
                push_str(&mut out, " bytes)");
            },
            LogoError::EscapeSequences => {
                push_str(&mut out, "Logo file contains ANSI escape sequences");
            },
            LogoError::TooManyLines { count } => {
                push_str(&mut out, "Logo has too many lines: ");
                push_decimal(&mut out, *count as u64);
                push_str(&mut out, " (max: ");
                push_decimal(&mut out, MAX_LINES as u64);
                push_str(&mut out, ")");
            },
            LogoError::LineTooWide { line, width } => {
                push_str(&mut out, "Line ");
                push_decimal(&mut out, *line as u64);
                push_str(&mut out, " is too wide: ");
                push_decimal(&mut out, *width as u64);
                push_str(&mut out, " chars (max: ");
                push_decimal(&mut out, MAX_LINE_WIDTH as u64);
                push_str(&mut out, ")");
            },
            LogoError::NotFound { name } => {
                push_str(&mut out, "Logo '");
                push_str(&mut out, name.as_str());
                push_str(&mut out, "' not found");
            },
        }
        proof {
            assert(out@ =~= message_text(*self));
        }
        string_of(&out)
    }
}

/// The line that runs from `from` up to the line feed at `end`, or up to
/// the end of the text: a carriage return just before the line feed is no
/// part of the line.
pub open spec fn line_between(text: Seq<char>, from: int, end: int) -> Seq<char> {
    if end < text.len() && from < end && text[end - 1] == '\r' {
        text.subrange(from, end - 1)
    } else {
        text.subrange(from, end)
    }
}

/// The lines of `text` from position `from` on.
pub open spec fn lines_from(text: Seq<char>, from: int) -> Seq<Seq<char>>
    decreases text.len() - from,
{
    if from < 0 || from >= text.len() {
        Seq::empty()
    } else {
        let end = next_index_of(text, '\n', from);
        proof {
            lemma_next_index_of(text, '\n', from);
        }
        let rest = if end < text.len() {
            lines_from(text, end + 1)
        } else {
            Seq::empty()
        };
        seq![line_between(text, from, end)] + rest
    }
}

/// The lines of `text`. Each line ends with a line feed, or with a
/// carriage return and a line feed, which are no part of it; the last line
/// may end with the text. An empty text has no line.
pub open spec fn lines_of(text: Seq<char>) -> Seq<Seq<char>> {
    lines_from(text, 0)
}

/// The texts of a list of strings.
pub open spec fn texts_of(lines: Seq<String>) -> Seq<Seq<char>> {
    Seq::new(lines.len(), |i: int| lines[i]@)
}

/// Splits `text` into its lines.
pub fn split_lines(text: &Vec<char>) -> (lines: Vec<String>)
    ensures
        texts_of(lines@) == lines_of(text@),
{
    let mut lines: Vec<String> = Vec::new();
    let mut from: usize = 0;
    while from < text.len()
        invariant
            from <= text@.len(),
            texts_of(lines@) + lines_from(text@, from as int) == lines_of(text@),
        decreases text@.len() - from,
    {
        let ghost before = texts_of(lines@);
        let end = find_char_from(text, '\n', from);
        let stop = if end < text.len() && from < end && text[end - 1] == '\r' {
            end - 1
        } else {
            end
        };
        let line = slice_of(text, from, stop);
        lines.push(string_of(&line));
        proof {
            let piece = line_between(text@, from as int, end as int);
            assert(texts_of(lines@) =~= before.push(piece));
            let rest = if end < text@.len() {
                lines_from(text@, end + 1)
            } else {
                Seq::empty()
            };
            assert(lines_from(text@, from as int) == seq![piece] + rest);
            assert(before.push(piece) + rest =~= before + (seq![piece] + rest));
        }
        if end < text.len() {
            from = end + 1;
        } else {
            from = end;
        }
    }
    proof {
        assert(texts_of(lines@) + Seq::<Seq<char>>::empty() =~= texts_of(lines@));
    }
    lines
}

/// Whether `line` takes more columns than a logo line may.
pub open spec fn is_wide(line: Seq<char>) -> bool {
    display_width(line) > MAX_LINE_WIDTH
}

/// Whether some line of `lines` is too wide.
pub open spec fn has_wide_line(lines: Seq<Seq<char>>) -> bool {
    exists|i: int| 0 <= i < lines.len() && is_wide(#[trigger] lines[i])
}

/// Whether `i` is the position of the first line of `lines` that is too
/// wide.
pub open spec fn is_first_wide_line(lines: Seq<Seq<char>>, i: int) -> bool {
    0 <= i < lines.len() && is_wide(lines[i]) && forall|j: int|
        0 <= j < i ==> !is_wide(#[trigger] lines[j])
}

/// The position of the first line of `lines` that is too wide.
pub open spec fn first_wide_line(lines: Seq<Seq<char>>) -> int {
    choose|i: int| is_first_wide_line(lines, i)
}

/// Why a source of `size` bytes with the text `content` is turned down, if
/// it is. The limits are tried in this order: the size, the absence of
/// escape characters, the number of lines, the width of each line from the
/// first on.
pub open spec fn rejection(size: u64, content: Seq<char>) -> Option<LogoError> {
    let lines = lines_of(content);
    if size > MAX_LOGO_SIZE {
        Some(LogoError::TooLarge { size })
    } else if content.contains(esc()) {
        Some(LogoError::EscapeSequences)
    } else if lines.len() > MAX_LINES {
        Some(LogoError::TooManyLines { count: lines.len() as usize })
    } else if has_wide_line(lines) {
        Some(
            LogoError::LineTooWide {
                line: (first_wide_line(lines) + 1) as usize,
                width: display_width(lines[first_wide_line(lines)]) as usize,
            },
        )
    } else {
        None
    }
}

/// The first wide line is the one that `first_wide_line` names.
pub proof fn lemma_first_wide_line(lines: Seq<Seq<char>>, i: int)
    requires
        is_first_wide_line(lines, i),
    ensures
        has_wide_line(lines),
        first_wide_line(lines) == i,
{
    let c = choose|k: int| is_first_wide_line(lines, k);
    assert(is_first_wide_line(lines, c));
    if c < i {
        assert(!is_wide(lines[c]));
    }
    if i < c {
        assert(!is_wide(lines[i]));
    }
}

impl Logo {
    /// The lines of the logo as texts.
    pub open spec fn line_texts(&self) -> Seq<Seq<char>> {
        texts_of(self.lines@)
    }

    /// Turns down a source of more than `MAX_LOGO_SIZE` bytes.
    pub fn check_size(size: u64) -> (checked: Result<(), LogoError>)
        ensures
            checked == (if size > MAX_LOGO_SIZE {
                Err::<(), LogoError>(LogoError::TooLarge { size })
            } else {
                Ok::<(), LogoError>(())
            }),
    {
        if size > MAX_LOGO_SIZE {
            Err(LogoError::TooLarge { size })
        } else {
            Ok(())
        }
    }

    /// Makes the logo of the source called `name`, which has `size` bytes
    /// and the text `content`, under the overrides `overrides`. A source
    /// that breaks a limit is turned down with the error that names the
    /// limit. Else the logo has the lines of the text, and the palette that
    /// `name` resolves to under the overrides.
    pub fn from_source(name: &str, size: u64, content: &str, overrides: &Palette) -> (made: Result<
        Logo,
        LogoError,
    >)
        ensures
            match made {
                Ok(logo) => rejection(size, content@) is None && logo.line_texts() == lines_of(
                    content@,
                ) && logo.colors@ == resolved_palette(lowercase_of(name@), overrides@),
                Err(e) => rejection(size, content@) == Some(e),
            },
    {
        if size > MAX_LOGO_SIZE {
            return Err(LogoError::TooLarge { size });
        }
        let text = chars_of(content);
        let at = find_char_from(&text, '\x1b', 0);
        proof {
            lemma_next_index_of(text@, esc(), 0);
        }
        if at < text.len() {
            assert(text@.contains(esc()));
            return Err(LogoError::EscapeSequences);
        }
        assert(!text@.contains(esc())) by {
            if text@.contains(esc()) {
                let k = choose|k: int| 0 <= k < text@.len() && text@[k] == esc();
                assert(text@[k] != esc());
            }
        }
        let lines = split_lines(&text);
        proof {
            assert(lines@.len() == texts_of(lines@).len());
        }
        if lines.len() > MAX_LINES {
            return Err(LogoError::TooManyLines { count: lines.len() });
        }
        let colors = resolve(name, overrides);
        let mut i: usize = 0;
        while i < lines.len()
            invariant
                i <= lines@.len(),
                lines@.len() <= MAX_LINES,
                size <= MAX_LOGO_SIZE,
                !content@.contains(esc()),
                texts_of(lines@) == lines_of(content@),
                colors@ == resolved_palette(lowercase_of(name@), overrides@),
                forall|j: int| 0 <= j < i ==> !is_wide(#[trigger] texts_of(lines@)[j]),
            decreases lines@.len() - i,
        {
            let line = chars_of(lines[i].as_str());
            let width = width_of(&line);
            assert(texts_of(lines@)[i as int] == line@);
            if width > MAX_LINE_WIDTH {
                proof {
                    let all = texts_of(lines@);
                    assert(all[i as int] == line@);
                    lemma_first_wide_line(all, i as int);
                }
                return Err(LogoError::LineTooWide { line: i + 1, width });
            }
            i += 1;
        }
        proof {
            let all = texts_of(lines@);
            assert(!has_wide_line(all)) by {
                if has_wide_line(all) {
                    let k = choose|k: int| 0 <= k < all.len() && is_wide(#[trigger] all[k]);
                    assert(!is_wide(all[k]));
                }
            }
        }
        Ok(Logo { lines, colors })
    }

    /// The palette of a logo whose own name gave no colour at all.
    pub fn get_default_colors() -> (palette: Palette)
        ensures
            palette@ == palette_of(default_colors()),
    {
        let defaults = vec![
            Color::Cyan,
            Color::Blue,
            Color::Green,
            Color::Yellow,
            Color::Red,
            Color::Magenta,
            Color::White,
            Color::DarkGrey,
        ];
        palette_from(&defaults)
    }

    /// The escape sequence that makes `color` the foreground colour.
    pub fn color_to_ansi(&self, color: &Color) -> (text: String)
        ensures
            text@ == crate::color::ansi(*color),
    {
        color.to_ansi()
    }

    /// The number of terminal columns that `line` takes once its
    /// placeholders are gone.
    pub fn calculate_display_width(line: &str) -> (width: usize)
        ensures
            width == display_width(line@),
    {
        let text = chars_of(line);
        width_of(&text)
    }

    /// Renders `line` with the colours of this logo. The colour carried in
    /// `current_color` is taken up at the start of the line, and the colour
    /// in force at its end is carried on in `current_color`.
    pub fn render_line(&self, line: &str, current_color: &mut Option<Color>) -> (text: String)
        ensures
            text@ == rendered_line(self.colors@, line@, *old(current_color)),
            *final(current_color) == carried_after(self.colors@, line@, *old(current_color)),
    {
        let chars = chars_of(line);
        let mut out: Vec<char> = Vec::new();
        let after = render_into(&mut out, &self.colors, &chars, *current_color);
        *current_color = after;
        proof {
            assert(out@ =~= rendered_line(self.colors@, line@, *old(current_color)));
        }
        string_of(&out)
    }
}

} // verus!
