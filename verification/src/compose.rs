//! The compositor: the lines of a logo side by side with the lines of the
//! information panel, and the colour swatches below them.

use crate::color::{ansi, push_ansi, Color};
use crate::palette::Palette;
use crate::template::{
    carried_after, display_width, key_of, render_into, rendered_line, width_of,
};
use crate::text::{
    chars_of, contains, decimal, find_char_from, has_substring, last_occurrence,
    next_index_of, push_all, push_decimal, push_repeated, push_str, repeated, rfind, slice_of,
    string_of,
};
use vstd::prelude::*;

verus! {

/// One line of the information panel.
#[derive(Clone, Debug, PartialEq, Eq)]
pub struct InfoLine {
    /// The text of the line, with the styling of its label in it.
    pub text: String,
    /// Whether the line shows a percentage in brackets.
    pub is_percent: bool,
    /// The percentage that the line shows.
    pub percent: u32,
}

/// What a line of the information panel holds.
pub struct PanelLine {
    pub text: Seq<char>,
    pub is_percent: bool,
    pub percent: u32,
}

impl View for InfoLine {
    type V = PanelLine;

    open spec fn view(&self) -> PanelLine {
        PanelLine { text: self.text@, is_percent: self.is_percent, percent: self.percent }
    }
}

/// What the lines of a panel hold.
pub open spec fn panel_of(infos: Seq<InfoLine>) -> Seq<PanelLine> {
    Seq::new(infos.len(), |i: int| infos[i]@)
}

/// The sequence that switches bold type on.
pub open spec fn bold() -> Seq<char> {
    "\x1b[1m"@
}

/// The sequence that switches every attribute off.
pub open spec fn reset() -> Seq<char> {
    "\x1b[0m"@
}

/// The colour of the labels: the colour of `$2`, else the colour of `$1`,
/// else cyan.
pub open spec fn label_color(palette: Map<Seq<char>, Color>) -> Color {
    if palette.dom().contains(key_of('2')) {
        palette[key_of('2')]
    } else if palette.dom().contains(key_of('1')) {
        palette[key_of('1')]
    } else {
        Color::Cyan
    }
}

/// Whether a line of the panel reports a fact as unknown or absent.
pub open spec fn is_unknown(text: Seq<char>) -> bool {
    contains(text, ": unknown"@) || contains(text, ": Unknown"@) || contains(text, ": None"@)
}

/// The colour of a percentage: green below 33, yellow from 33 and below
/// 66, red from 66.
pub open spec fn threshold_color(percent: u32) -> Color {
    if percent < 33 {
        Color::Green
    } else if percent < 66 {
        Color::Yellow
    } else {
        Color::Red
    }
}

/// The text of a line with a percentage, its last bracket coloured by the
/// percentage. The bracket is looked for at the last ` (` of the text and
/// ends at the first `)` behind it; a text without such a bracket stays as
/// it is.
pub open spec fn recolored(text: Seq<char>, percent: u32) -> Seq<char> {
    match last_occurrence(text, " ("@) {
        Some(open) => {
            let after = text.subrange(open, text.len() as int);
            let close = next_index_of(after, ')', 0);
            if close < after.len() {
                text.subrange(0, open) + " ("@ + ansi(threshold_color(percent)) + decimal(
                    percent as nat,
                ) + "%\x1b[0m)"@ + after.subrange(close + 1, after.len() as int)
            } else {
                text
            }
        },
        None => text,
    }
}

/// What a line of the panel shows beside a line of the logo.
pub open spec fn info_part(info: PanelLine) -> Seq<char> {
    if info.is_percent {
        recolored(info.text, info.percent)
    } else {
        info.text
    }
}

/// The greatest display width among `lines`, 0 if there is no line.
pub open spec fn max_width(lines: Seq<Seq<char>>) -> nat
    decreases lines.len(),
{
    if lines.len() == 0 {
        0
    } else {
        let rest = max_width(lines.drop_last());
        let last = display_width(lines.last());
        if last > rest {
            last
        } else {
            rest
        }
    }
}

/// No line is wider than the greatest width.
pub proof fn lemma_max_width(lines: Seq<Seq<char>>, i: int)
    requires
        0 <= i < lines.len(),
    ensures
        display_width(lines[i]) <= max_width(lines),
    decreases lines.len(),
{
    if i < lines.len() - 1 {
        lemma_max_width(lines.drop_last(), i);
    }
}

/// The number of rows: as many as the longer of the logo and the panel.
pub open spec fn row_count(lines: Seq<Seq<char>>, infos: Seq<PanelLine>) -> nat {
    if lines.len() > infos.len() {
        lines.len()
    } else {
        infos.len()
    }
}

/// Whether row `i` is left out: its line of the panel reports a fact as
/// unknown or absent.
pub open spec fn is_skipped(infos: Seq<PanelLine>, i: int) -> bool {
    0 <= i < infos.len() && is_unknown(infos[i].text)
}

/// The text of row `i`, while `carried` is the colour in force. A row that
/// is left out has no text; a row with a line of the logo shows it in bold
/// and, if the panel has a line for it, pads it to the greatest width and
/// two more columns; a row below the logo is indented as far.
pub open spec fn row_text(
    palette: Map<Seq<char>, Color>,
    lines: Seq<Seq<char>>,
    infos: Seq<PanelLine>,
    i: int,
    carried: Option<Color>,
) -> Seq<char> {
    if is_skipped(infos, i) {
        Seq::empty()
    } else if 0 <= i < lines.len() {
        let logo_part = bold() + rendered_line(palette, lines[i], carried) + reset();
        if i < infos.len() {
            logo_part + repeated(
                ' ',
                (max_width(lines) - display_width(lines[i]) + 2) as nat,
            ) + info_part(infos[i]) + reset() + seq!['\n']
        } else {
            logo_part + seq!['\n']
        }
    } else {
        repeated(' ', max_width(lines) + 2) + infos[i].text + seq!['\n']
    }
}

/// The colour in force behind row `i`.
pub open spec fn row_carry(
    palette: Map<Seq<char>, Color>,
    lines: Seq<Seq<char>>,
    infos: Seq<PanelLine>,
    i: int,
    carried: Option<Color>,
) -> Option<Color> {
    if is_skipped(infos, i) {
        carried
    } else if 0 <= i < lines.len() {
        carried_after(palette, lines[i], carried)
    } else {
        carried
    }
}

/// The text of the rows from row `i` on.
pub open spec fn rows_from(
    palette: Map<Seq<char>, Color>,
    lines: Seq<Seq<char>>,
    infos: Seq<PanelLine>,
    i: int,
    carried: Option<Color>,
) -> Seq<char>
    decreases row_count(lines, infos) - i,
{
    if i < 0 || i >= row_count(lines, infos) {
        Seq::empty()
    } else {
        row_text(palette, lines, infos, i, carried) + rows_from(
            palette,
            lines,
            infos,
            i + 1,
            row_carry(palette, lines, infos, i, carried),
        )
    }
}

/// The swatches of the eight standard background colours.
pub open spec fn standard_swatches() -> Seq<char> {
    "\x1b[40m   \x1b[41m   \x1b[42m   \x1b[43m   \x1b[44m   \x1b[45m   \x1b[46m   \x1b[47m   "@
}

/// The swatches of the eight bright background colours.
pub open spec fn bright_swatches() -> Seq<char> {
    "\x1b[100m   \x1b[101m   \x1b[102m   \x1b[103m   \x1b[104m   \x1b[105m   \x1b[106m   \x1b[107m   "@
}

/// The footer: an empty line and the two rows of swatches, each indented
/// by `width` and two more columns.
pub open spec fn footer(width: nat) -> Seq<char> {
    seq!['\n'] + repeated(' ', width + 2) + standard_swatches() + reset() + seq!['\n'] + repeated(
        ' ',
        width + 2,
    ) + bright_swatches() + reset() + seq!['\n']
}

/// The colour carried into the first row: the colour of `$1`, if it has
/// one.
pub open spec fn first_carry(palette: Map<Seq<char>, Color>) -> Option<Color> {
    if palette.dom().contains(key_of('1')) {
        Some(palette[key_of('1')])
    } else {
        None
    }
}

/// The whole picture: every row, then the footer.
pub open spec fn picture(
    palette: Map<Seq<char>, Color>,
    lines: Seq<Seq<char>>,
    infos: Seq<PanelLine>,
) -> Seq<char> {
    rows_from(palette, lines, infos, 0, first_carry(palette)) + footer(max_width(lines))
}

/// The colour of a percentage.
pub fn threshold_color_of(percent: u32) -> (color: Color)
    ensures
        color == threshold_color(percent),
{
    if percent < 33 {
        Color::Green
    } else if percent < 66 {
        Color::Yellow
    } else {
        Color::Red
    }
}

/// Tests whether a line of the panel reports a fact as unknown or absent.
pub fn reports_unknown(text: &Vec<char>) -> (unknown: bool)
    ensures
        unknown == is_unknown(text@),
{
    has_substring(text, &chars_of(": unknown")) || has_substring(text, &chars_of(": Unknown"))
        || has_substring(text, &chars_of(": None"))
}

/// Appends to `out` the text of a line with a percentage, its last bracket
/// coloured by the percentage.
pub fn push_recolored(out: &mut Vec<char>, text: &Vec<char>, percent: u32)
    ensures
        final(out)@ == old(out)@ + recolored(text@, percent),
{
    let ghost before = out@;
    let opening = chars_of(" (");
    match rfind(text, &opening) {
        Some(open) => {
            let after = slice_of(text, open, text.len());
            let close = find_char_from(&after, ')', 0);
            if close < after.len() {
                let head = slice_of(text, 0, open);
                let tail = slice_of(&after, close + 1, after.len());
                push_all(out, &head);
                push_str(out, " (");
                push_ansi(out, threshold_color_of(percent));
                push_decimal(out, percent as u64);
                push_str(out, "%\x1b[0m)");
                push_all(out, &tail);
                proof {
                    assert(out@ =~= before + recolored(text@, percent));
                }
            } else {
                push_all(out, text);
            }
        },
        None => {
            push_all(out, text);
        },
    }
}

/// The greatest display width among `lines`.
pub fn max_width_of(lines: &Vec<String>) -> (width: usize)
    ensures
        width == max_width(crate::logo::texts_of(lines@)),
{
    let ghost all = crate::logo::texts_of(lines@);
    let mut width: usize = 0;
    let mut i: usize = 0;
    while i < lines.len()
        invariant
            i <= lines@.len(),
            all == crate::logo::texts_of(lines@),
            width == max_width(all.subrange(0, i as int)),
        decreases lines@.len() - i,
    {
        let line = chars_of(lines[i].as_str());
        let w = width_of(&line);
        proof {
            let part = all.subrange(0, i + 1);
            assert(part.drop_last() =~= all.subrange(0, i as int));
            assert(part.last() == line@);
        }
        if w > width {
            width = w;
        }
        i += 1;
    }
    proof {
        assert(all.subrange(0, i as int) =~= all);
    }
    width
}

/// Appends `n` and two more spaces to `out`.
fn push_padding(out: &mut Vec<char>, n: usize)
    ensures
        final(out)@ == old(out)@ + repeated(' ', (n + 2) as nat),
{
    push_repeated(out, ' ', n);
    out.push(' ');
    out.push(' ');
    proof {
        assert(out@ =~= old(out)@ + repeated(' ', (n + 2) as nat));
    }
}

/// Appends a line of the logo to `out`, rendered in bold, and returns the
/// colour carried on behind it.
fn push_logo_part(out: &mut Vec<char>, palette: &Palette, line: &Vec<char>, carried: Option<Color>) -> (after:
    Option<Color>)
    ensures
        final(out)@ == old(out)@ + (bold() + rendered_line(palette@, line@, carried) + reset()),
        after == carried_after(palette@, line@, carried),
{
    push_str(out, "\x1b[1m");
    let after = render_into(out, palette, line, carried);
    push_str(out, "\x1b[0m");
    proof {
        assert(out@ =~= old(out)@ + (bold() + rendered_line(palette@, line@, carried) + reset()));
    }
    after
}

/// Appends to `out` what a line of the panel shows beside the logo.
fn push_info_part(out: &mut Vec<char>, info: &InfoLine)
    ensures
        final(out)@ == old(out)@ + info_part(info@),
{
    let info_text = chars_of(info.text.as_str());
    if info.is_percent {
        push_recolored(out, &info_text, info.percent);
    } else {
        push_all(out, &info_text);
    }
}

/// Appends row `i` to `out` and returns the colour in force behind it.
fn push_row(
    out: &mut Vec<char>,
    palette: &Palette,
    logo_lines: &Vec<String>,
    info_lines: &Vec<InfoLine>,
    width: usize,
    i: usize,
    carried: Option<Color>,
) -> (after: Option<Color>)
    requires
        i < row_count(crate::logo::texts_of(logo_lines@), panel_of(info_lines@)),
        width == max_width(crate::logo::texts_of(logo_lines@)),
    ensures
        final(out)@ == old(out)@ + row_text(
            palette@,
            crate::logo::texts_of(logo_lines@),
            panel_of(info_lines@),
            i as int,
            carried,
        ),
        after == row_carry(
            palette@,
            crate::logo::texts_of(logo_lines@),
            panel_of(info_lines@),
            i as int,
            carried,
        ),
{
    let ghost lines = crate::logo::texts_of(logo_lines@);
    let ghost infos = panel_of(info_lines@);
    let ghost before = out@;
    if i < info_lines.len() {
        let info_text = chars_of(info_lines[i].text.as_str());
        if reports_unknown(&info_text) {
            proof {
                assert(out@ =~= before + row_text(palette@, lines, infos, i as int, carried));
            }
            return carried;
        }
    }
    if i < logo_lines.len() {
        let line = chars_of(logo_lines[i].as_str());
        assert(lines[i as int] == line@);
        let after = push_logo_part(out, palette, &line, carried);
        if i < info_lines.len() {
            let w = width_of(&line);
            proof {
                lemma_max_width(lines, i as int);
            }
            push_padding(out, width - w);
            push_info_part(out, &info_lines[i]);
            push_str(out, "\x1b[0m");
            out.push('\n');
        } else {
            out.push('\n');
        }
        proof {
            assert(out@ =~= before + row_text(palette@, lines, infos, i as int, carried));
        }
        after
    } else {
        let info_text = chars_of(info_lines[i].text.as_str());
        push_padding(out, width);
        push_all(out, &info_text);
        out.push('\n');
        proof {
            assert(out@ =~= before + row_text(palette@, lines, infos, i as int, carried));
        }
        carried
    }
}

/// Appends the footer to `out`.
fn push_footer(out: &mut Vec<char>, width: usize)
    ensures
        final(out)@ == old(out)@ + footer(width as nat),
{
    out.push('\n');
    push_padding(out, width);
    push_str(
        out,
        "\x1b[40m   \x1b[41m   \x1b[42m   \x1b[43m   \x1b[44m   \x1b[45m   \x1b[46m   \x1b[47m   ",
    );
    push_str(out, "\x1b[0m");
    out.push('\n');
    push_padding(out, width);
    push_str(
        out,
        "\x1b[100m   \x1b[101m   \x1b[102m   \x1b[103m   \x1b[104m   \x1b[105m   \x1b[106m   \x1b[107m   ",
    );
    push_str(out, "\x1b[0m");
    out.push('\n');
    proof {
        assert(out@ =~= old(out)@ + footer(width as nat));
    }
}

/// Composes the picture: the lines of the logo, coloured by `palette`,
/// side by side with the lines of the panel, and the footer below them.
pub fn render(palette: &Palette, logo_lines: &Vec<String>, info_lines: &Vec<InfoLine>) -> (text:
    String)
    ensures
        text@ == picture(palette@, crate::logo::texts_of(logo_lines@), panel_of(info_lines@)),
{
    let ghost lines = crate::logo::texts_of(logo_lines@);
    let ghost infos = panel_of(info_lines@);
    let width = max_width_of(logo_lines);
    let mut key: Vec<char> = Vec::new();
    key.push('$');
    key.push('1');
    assert(key@ =~= key_of('1'));
    let mut current = palette.get_chars(&key);
    let rows = if logo_lines.len() > info_lines.len() {
        logo_lines.len()
    } else {
        info_lines.len()
    };
    let mut out: Vec<char> = Vec::new();
    let mut i: usize = 0;
    while i < rows
        invariant
            i <= rows,
            rows == row_count(lines, infos),
            lines == crate::logo::texts_of(logo_lines@),
            infos == panel_of(info_lines@),
            width == max_width(lines),
            out@ + rows_from(palette@, lines, infos, i as int, current) == rows_from(
                palette@,
                lines,
                infos,
                0,
                first_carry(palette@),
            ),
        decreases rows - i,
    {
        let ghost before = out@;
        let ghost carried = current;
        current = push_row(&mut out, palette, logo_lines, info_lines, width, i, current);
        proof {
            let here = row_text(palette@, lines, infos, i as int, carried);
            let rest = rows_from(palette@, lines, infos, i + 1, current);
            assert(rows_from(palette@, lines, infos, i as int, carried) == here + rest);
            assert(out@ + rest =~= before + (here + rest));
        }
        i += 1;
    }
    proof {
        assert(out@ =~= rows_from(palette@, lines, infos, 0, first_carry(palette@)));
    }
    push_footer(&mut out, width);
    string_of(&out)
}

} // verus!
