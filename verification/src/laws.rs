//! What holds of the library as a whole: of the resolver, of the carried
//! colour and of the colouring of percentages.

use crate::color::{ansi, esc, Color};
use crate::compose::threshold_color;
use crate::logo::{
    has_wide_line, is_first_wide_line, lemma_first_wide_line, lines_of, rejection, LogoError,
    MAX_LINES, MAX_LOGO_SIZE,
};
use crate::resolve::{
    base_palette, colors_for, fallback_colors, group_of, index_key, is_alias_index,
    is_first_alias_index, is_known, lemma_group_of, lowercase_of, palette_of, resolved_palette,
    start_palette,
};
use crate::table::{alias_entry, group_colors, ALIAS_COUNT};
use crate::table_order::{lemma_group_in_range, lemma_group_size, lemma_names_differ};
use crate::template::{
    carried_after, carry_from, carry_prefix, display_width, key_of, next_after, piece_at,
    rendered_line, text_from, Piece,
};
use crate::text::{decimal, is_digit};
use vstd::prelude::*;

verus! {

/// Resolving does not look at the case of the identifier: two identifiers
/// with the same lowercase form resolve to the same palette, whatever the
/// overrides.
pub proof fn law_resolve_ignores_case(
    a: Seq<char>,
    b: Seq<char>,
    overrides: Map<Seq<char>, Color>,
)
    requires
        lowercase_of(a) == lowercase_of(b),
    ensures
        base_palette(lowercase_of(a)) == base_palette(lowercase_of(b)),
        resolved_palette(lowercase_of(a), overrides) == resolved_palette(
            lowercase_of(b),
            overrides,
        ),
{
}

/// Every name of the table has the colours of its own group: the name at
/// position `i` stands at no other position.
pub proof fn law_name_has_colors_of_its_group(i: int)
    requires
        0 <= i < ALIAS_COUNT,
    ensures
        is_known(alias_entry(i).0),
        group_of(alias_entry(i).0) == Some(alias_entry(i).1),
        colors_for(alias_entry(i).0) == group_colors(alias_entry(i).1),
{
    let name = alias_entry(i).0;
    assert(is_alias_index(name, i));
    assert forall|j: int| j < i implies !is_alias_index(name, j) by {
        if 0 <= j {
            lemma_names_differ(i, j);
        }
    }
    assert(is_first_alias_index(name, i));
    lemma_group_of(name, i);
}

/// The names of one group resolve to identical palettes: two identifiers
/// whose lowercase forms stand in the table with the same group resolve
/// alike, whatever the overrides.
pub proof fn law_aliases_share_palette(
    a: Seq<char>,
    b: Seq<char>,
    i: int,
    j: int,
    overrides: Map<Seq<char>, Color>,
)
    requires
        0 <= i < ALIAS_COUNT,
        0 <= j < ALIAS_COUNT,
        lowercase_of(a) == alias_entry(i).0,
        lowercase_of(b) == alias_entry(j).0,
        alias_entry(i).1 == alias_entry(j).1,
    ensures
        base_palette(lowercase_of(a)) == base_palette(lowercase_of(b)),
        resolved_palette(lowercase_of(a), overrides) == resolved_palette(
            lowercase_of(b),
            overrides,
        ),
{
    law_name_has_colors_of_its_group(i);
    law_name_has_colors_of_its_group(j);
}

/// The palette of a list of colours has the key of each of its positions.
pub proof fn lemma_palette_has_key(colors: Seq<Color>, i: int)
    requires
        0 <= i < colors.len(),
    ensures
        palette_of(colors).dom().contains(index_key(i as nat)),
    decreases colors.len(),
{
    if i < colors.len() - 1 {
        lemma_palette_has_key(colors.drop_last(), i);
    }
}

/// No identifier resolves to an empty palette: the table gives every
/// name a colour, and an unknown name gets two. So the palette that the
/// overrides are laid over is always the palette of the identifier itself.
pub proof fn law_palette_is_never_empty(key: Seq<char>)
    ensures
        base_palette(key) != Map::<Seq<char>, Color>::empty(),
        start_palette(key) == base_palette(key),
{
    let colors = colors_for(key);
    if is_known(key) {
        let i = choose|i: int| is_first_alias_index(key, i);
        assert(is_first_alias_index(key, i)) by {
            lemma_first_alias_exists(key);
        }
        lemma_group_of(key, i);
        lemma_group_in_range(i);
        lemma_group_size(alias_entry(i).1);
    }
    assert(colors.len() >= 1);
    lemma_palette_has_key(colors, 0);
}

/// A name that stands in the table has a first position there.
pub proof fn lemma_first_alias_exists(key: Seq<char>)
    requires
        is_known(key),
    ensures
        exists|i: int| is_first_alias_index(key, i),
{
    let k = choose|k: int| is_alias_index(key, k);
    lemma_first_alias_below(key, k);
}

/// A name that stands at position `k` of the table has a first position
/// at or before `k`.
pub proof fn lemma_first_alias_below(key: Seq<char>, k: int)
    requires
        is_alias_index(key, k),
    ensures
        exists|i: int| is_first_alias_index(key, i),
    decreases k,
{
    if exists|j: int| j < k && is_alias_index(key, j) {
        let j = choose|j: int| j < k && is_alias_index(key, j);
        lemma_first_alias_below(key, j);
    } else {
        assert(is_first_alias_index(key, k));
    }
}

/// The palette of white and grey: white under `$1`, grey under `$2`, and
/// no other key.
pub proof fn law_fallback_palette()
    ensures
        palette_of(fallback_colors()) == Map::<Seq<char>, Color>::empty().insert(
            key_of('1'),
            Color::White,
        ).insert(key_of('2'), Color::Grey),
        palette_of(fallback_colors()).dom().len() == 2,
        palette_of(fallback_colors()) != Map::<Seq<char>, Color>::empty(),
{
    reveal_with_fuel(palette_of, 3);
    reveal_with_fuel(decimal, 2);
    let colors = fallback_colors();
    let one = colors.drop_last();
    assert(one =~= seq![Color::White]);
    assert(one.drop_last() =~= Seq::<Color>::empty());
    assert(index_key(0) =~= key_of('1'));
    assert(index_key(1) =~= key_of('2'));
    let expected = Map::<Seq<char>, Color>::empty().insert(key_of('1'), Color::White).insert(
        key_of('2'),
        Color::Grey,
    );
    assert(palette_of(colors) =~= expected);
    assert(key_of('1') != key_of('2')) by {
        assert(key_of('1')[1] != key_of('2')[1]);
    }
    assert(expected.dom() =~= set![key_of('1'), key_of('2')]);
    assert(expected.dom().contains(key_of('1')));
}

/// An identifier that the table does not know resolves, without
/// overrides, to exactly white under `$1` and grey under `$2`.
pub proof fn law_unknown_resolves_to_fallback(key: Seq<char>)
    requires
        !is_known(key),
    ensures
        resolved_palette(key, Map::empty()) == Map::<Seq<char>, Color>::empty().insert(
            key_of('1'),
            Color::White,
        ).insert(key_of('2'), Color::Grey),
{
    law_fallback_palette();
    assert(resolved_palette(key, Map::empty()) =~= start_palette(key));
}

/// Overrides are laid over the resolved palette and never take its place:
/// a key of the overrides has the colour that they give it; any other key
/// is in the result exactly if the start palette has it, with the colour
/// it has there.
pub proof fn law_overrides_merge(
    key: Seq<char>,
    overrides: Map<Seq<char>, Color>,
    k: Seq<char>,
)
    ensures
        overrides.dom().contains(k) ==> resolved_palette(key, overrides).dom().contains(k)
            && resolved_palette(key, overrides)[k] == overrides[k],
        !overrides.dom().contains(k) ==> (resolved_palette(key, overrides).dom().contains(k)
            <==> start_palette(key).dom().contains(k)),
        !overrides.dom().contains(k) && start_palette(key).dom().contains(k) ==> resolved_palette(
            key,
            overrides,
        )[k] == start_palette(key)[k],
{
}

/// From position `i` on, a line without `$` is shown as it stands and
/// leaves the carried colour alone.
pub proof fn lemma_plain_rest(
    palette: Map<Seq<char>, Color>,
    line: Seq<char>,
    i: int,
    carried: Option<Color>,
)
    requires
        0 <= i <= line.len(),
        forall|j: int| i <= j < line.len() ==> line[j] != '$',
    ensures
        text_from(palette, line, i) == line.subrange(i, line.len() as int),
        carry_from(palette, line, i, carried) == carried,
    decreases line.len() - i,
{
    if i < line.len() {
        lemma_plain_rest(palette, line, i + 1, carried);
        assert(seq![line[i]] + line.subrange(i + 1, line.len() as int) =~= line.subrange(
            i,
            line.len() as int,
        ));
    } else {
        assert(line.subrange(i, line.len() as int) =~= Seq::<char>::empty());
    }
}

/// A carried colour is taken up at the start of every line: the rendering
/// of a line under a carried colour begins with the escape sequence of
/// that colour.
pub proof fn law_carried_color_opens_line(
    palette: Map<Seq<char>, Color>,
    line: Seq<char>,
    color: Color,
)
    ensures
        rendered_line(palette, line, Some(color)) == ansi(color) + text_from(palette, line, 0),
        rendered_line(palette, line, Some(color)).subrange(0, ansi(color).len() as int) == ansi(
            color,
        ),
{
    let text = rendered_line(palette, line, Some(color));
    assert(text.subrange(0, ansi(color).len() as int) =~= ansi(color));
}

/// A line without placeholders is shown in the carried colour and carries
/// it on unchanged.
pub proof fn law_plain_line_keeps_carry(
    palette: Map<Seq<char>, Color>,
    line: Seq<char>,
    carried: Option<Color>,
)
    requires
        forall|j: int| 0 <= j < line.len() ==> line[j] != '$',
    ensures
        rendered_line(palette, line, carried) == carry_prefix(carried) + line,
        carried_after(palette, line, carried) == carried,
{
    lemma_plain_rest(palette, line, 0, carried);
    assert(line.subrange(0, line.len() as int) =~= line);
}

/// A placeholder `$N` whose key has a colour puts out the escape sequence
/// of that colour and makes it the carried colour: what follows on the
/// line without another placeholder is shown behind that sequence, and the
/// colour is carried on behind the line, whatever was carried before.
pub proof fn law_placeholder_sets_carry(
    palette: Map<Seq<char>, Color>,
    digit: char,
    rest: Seq<char>,
    carried: Option<Color>,
)
    requires
        is_digit(digit),
        palette.dom().contains(key_of(digit)),
        forall|j: int| 0 <= j < rest.len() ==> rest[j] != '$',
    ensures
        rendered_line(palette, seq!['$', digit] + rest, carried) == carry_prefix(carried) + ansi(
            palette[key_of(digit)],
        ) + rest,
        carried_after(palette, seq!['$', digit] + rest, carried) == Some(palette[key_of(digit)]),
{
    let line = seq!['$', digit] + rest;
    let color = palette[key_of(digit)];
    assert(line[0] == '$' && line[1] == digit);
    assert(piece_at(line, 0) == Piece::Select(digit));
    assert(next_after(line, 0) == 2);
    assert forall|j: int| 2 <= j < line.len() implies line[j] != '$' by {
        assert(line[j] == rest[j - 2]);
    }
    lemma_plain_rest(palette, line, 2, Some(color));
    assert(line.subrange(2, line.len() as int) =~= rest);
    assert(text_from(palette, line, 0) == ansi(color) + text_from(palette, line, 2));
    assert(carry_from(palette, line, 0, carried) == carry_from(palette, line, 2, Some(color)));
    assert(carry_prefix(carried) + (ansi(color) + rest) =~= carry_prefix(carried) + ansi(color)
        + rest);
}

/// A source that breaks a limit is turned down with the error of the
/// first limit that it breaks, in the order of size, escape characters
/// and number of lines; a source that keeps these and has no wide line is
/// not turned down.
pub proof fn law_rejection_names_its_limit(size: u64, content: Seq<char>)
    ensures
        size > MAX_LOGO_SIZE ==> rejection(size, content) == Some(LogoError::TooLarge { size }),
        size <= MAX_LOGO_SIZE && content.contains(esc()) ==> rejection(size, content) == Some(
            LogoError::EscapeSequences,
        ),
        size <= MAX_LOGO_SIZE && !content.contains(esc()) && lines_of(content).len() > MAX_LINES
            ==> rejection(size, content) == Some(
            LogoError::TooManyLines { count: lines_of(content).len() as usize },
        ),
        size <= MAX_LOGO_SIZE && !content.contains(esc()) && lines_of(content).len() <= MAX_LINES
            && !has_wide_line(lines_of(content)) ==> rejection(size, content) is None,
{
}

/// A source that keeps every limit but the width of its lines is turned
/// down with the number of its first wide line, counted from one, and the
/// width that was measured for that line.
pub proof fn law_wide_line_is_named(size: u64, content: Seq<char>, i: int)
    requires
        size <= MAX_LOGO_SIZE,
        !content.contains(esc()),
        lines_of(content).len() <= MAX_LINES,
        is_first_wide_line(lines_of(content), i),
    ensures
        rejection(size, content) == Some(
            LogoError::LineTooWide {
                line: (i + 1) as usize,
                width: display_width(lines_of(content)[i]) as usize,
            },
        ),
{
    lemma_first_wide_line(lines_of(content), i);
}

/// The colour of a percentage goes by two thresholds, each the first
/// value of the band above it: green below 33, yellow from 33 and below
/// 66, red from 66.
pub proof fn law_threshold_bands(percent: u32)
    ensures
        percent < 33 ==> threshold_color(percent) == Color::Green,
        33 <= percent < 66 ==> threshold_color(percent) == Color::Yellow,
        66 <= percent ==> threshold_color(percent) == Color::Red,
        threshold_color(33) == Color::Yellow,
        threshold_color(66) == Color::Red,
{
}

/// The markers of the three bands are the sequences of the codes 92, 93
/// and 91.
pub proof fn law_threshold_markers()
    ensures
        ansi(Color::Green) == seq![esc(), '[', '9', '2', 'm'],
        ansi(Color::Yellow) == seq![esc(), '[', '9', '3', 'm'],
        ansi(Color::Red) == seq![esc(), '[', '9', '1', 'm'],
{
    reveal_with_fuel(decimal, 2);
    assert(decimal(92) =~= seq!['9', '2']);
    assert(decimal(93) =~= seq!['9', '3']);
    assert(decimal(91) =~= seq!['9', '1']);
    assert(ansi(Color::Green) =~= seq![esc(), '[', '9', '2', 'm']);
    assert(ansi(Color::Yellow) =~= seq![esc(), '[', '9', '3', 'm']);
    assert(ansi(Color::Red) =~= seq![esc(), '[', '9', '1', 'm']);
}

} // verus!
