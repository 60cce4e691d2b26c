//! The palette resolver: from the name of a system to the palette of its
//! logo, by way of the table of known systems, a fallback for unknown names
//! and the overrides that a caller supplies.

use crate::color::Color;
use crate::palette::Palette;
use crate::table::{alias_at, alias_entry, colors_of_group, group_colors, ALIAS_COUNT};
use crate::text::{chars_of, decimal, equals_str, push_decimal, string_of};
use vstd::prelude::*;

verus! {

/// The lowercase form of `s`, as `str::to_lowercase` gives it.
pub uninterp spec fn lowercase_of(s: Seq<char>) -> Seq<char>;

/// `str::to_lowercase`: the lowercase equivalent of the string, by the
/// rules of Unicode. The result depends on the characters of the string
/// alone; the contract gives it the name `lowercase_of` and says no more.
#[verifier::external_body]
pub(crate) fn lowercase(s: &str) -> (lower: String)
    ensures
        lower@ == lowercase_of(s@),
{
    s.to_lowercase()
}

/// Whether the table has `name` at position `i`.
pub open spec fn is_alias_index(name: Seq<char>, i: int) -> bool {
    0 <= i < ALIAS_COUNT && alias_entry(i).0 == name
}

/// Whether `name` stands in the table.
pub open spec fn is_known(name: Seq<char>) -> bool {
    exists|i: int| is_alias_index(name, i)
}

/// Whether `i` is the first position at which the table has `name`.
pub open spec fn is_first_alias_index(name: Seq<char>, i: int) -> bool {
    is_alias_index(name, i) && forall|j: int| j < i ==> !is_alias_index(name, j)
}

/// The group of `name` in the table, if the name stands there. Names are
/// matched exactly, character by character.
pub open spec fn group_of(name: Seq<char>) -> Option<int> {
    if is_known(name) {
        Some(alias_entry(choose|i: int| is_first_alias_index(name, i)).1)
    } else {
        None
    }
}

/// The first position of a name is the one that decides its group.
pub proof fn lemma_group_of(name: Seq<char>, i: int)
    requires
        is_first_alias_index(name, i),
    ensures
        group_of(name) == Some(alias_entry(i).1),
{
    let c = choose|k: int| is_first_alias_index(name, k);
    assert(is_first_alias_index(name, c));
    if c < i {
        assert(!is_alias_index(name, c));
    }
    if i < c {
        assert(!is_alias_index(name, i));
    }
}

/// The colours of a system that the table does not know: white and grey.
pub open spec fn fallback_colors() -> Seq<Color> {
    seq![Color::White, Color::Grey]
}

/// The colours of the system with the lowercase name `key`, in the order
/// of their placeholders.
pub open spec fn colors_for(key: Seq<char>) -> Seq<Color> {
    match group_of(key) {
        Some(g) => group_colors(g),
        None => fallback_colors(),
    }
}

/// The key of the colour at position `i` of a list: `$` and the decimal
/// numeral of `i + 1`.
pub open spec fn index_key(i: nat) -> Seq<char> {
    seq!['$'] + decimal(i + 1)
}

/// The palette of a list of colours: the first colour under `$1`, the
/// second under `$2`, and so on.
pub open spec fn palette_of(colors: Seq<Color>) -> Map<Seq<char>, Color>
    decreases colors.len(),
{
    if colors.len() == 0 {
        Map::empty()
    } else {
        palette_of(colors.drop_last()).insert(
            index_key((colors.len() - 1) as nat),
            colors.last(),
        )
    }
}

/// The palette of a logo whose own name gave no colour at all: cyan, blue,
/// green, yellow, red, magenta, white and dark grey.
pub open spec fn default_colors() -> Seq<Color> {
    seq![
        Color::Cyan,
        Color::Blue,
        Color::Green,
        Color::Yellow,
        Color::Red,
        Color::Magenta,
        Color::White,
        Color::DarkGrey,
    ]
}

/// The palette of the system with the lowercase name `key`, before any
/// override.
pub open spec fn base_palette(key: Seq<char>) -> Map<Seq<char>, Color> {
    palette_of(colors_for(key))
}

/// The palette that the overrides are laid over: the palette of the
/// system with the lowercase name `key`, or the default palette in its
/// place should it be empty.
pub open spec fn start_palette(key: Seq<char>) -> Map<Seq<char>, Color> {
    let base = base_palette(key);
    if base == Map::<Seq<char>, Color>::empty() {
        palette_of(default_colors())
    } else {
        base
    }
}

/// The palette of the system with the lowercase name `key` under the
/// overrides `overrides`: every key of the overrides with its colour, and
/// every other key of the start palette with the colour it has there.
pub open spec fn resolved_palette(key: Seq<char>, overrides: Map<Seq<char>, Color>) -> Map<
    Seq<char>,
    Color,
> {
    start_palette(key).union_prefer_right(overrides)
}

/// Finds the group of `name` in the table.
pub fn find_group(name: &Vec<char>) -> (group: Option<usize>)
    ensures
        match group {
            Some(g) => group_of(name@) == Some(g as int),
            None => group_of(name@) is None,
        },
{
    let mut i: usize = 0;
    while i < ALIAS_COUNT
        invariant
            i <= ALIAS_COUNT,
            forall|j: int| j < i ==> !is_alias_index(name@, j),
        decreases ALIAS_COUNT - i,
    {
        let (alias, group) = alias_at(i);
        if equals_str(name, alias) {
            proof {
                lemma_group_of(name@, i as int);
            }
            return Some(group);
        }
        i += 1;
    }
    assert(forall|j: int| !is_alias_index(name@, j));
    None
}

/// The palette of a list of colours: the first colour under `$1`, the
/// second under `$2`, and so on.
pub fn palette_from(colors: &Vec<Color>) -> (palette: Palette)
    ensures
        palette@ == palette_of(colors@),
{
    let mut palette = Palette::new();
    let mut i: usize = 0;
    while i < colors.len()
        invariant
            i <= colors@.len(),
            palette@ == palette_of(colors@.subrange(0, i as int)),
        decreases colors@.len() - i,
    {
        let mut key: Vec<char> = Vec::new();
        key.push('$');
        push_decimal(&mut key, (i + 1) as u64);
        let key_text = string_of(&key);
        palette.insert(key_text.as_str(), colors[i]);
        proof {
            let part = colors@.subrange(0, i + 1);
            assert(part.drop_last() =~= colors@.subrange(0, i as int));
            assert(key@ =~= index_key(i as nat));
        }
        i += 1;
    }
    proof {
        assert(colors@.subrange(0, i as int) =~= colors@);
    }
    palette
}

/// The colours of the system with the lowercase name `key`.
pub fn colors_for_key(key: &str) -> (colors: Vec<Color>)
    ensures
        colors@ == colors_for(key@),
{
    let name = chars_of(key);
    match find_group(&name) {
        Some(g) => colors_of_group(g),
        None => vec![Color::White, Color::Grey],
    }
}

/// The palette of the system with the lowercase name `key`, before any
/// override. A name that the table does not know gets white under `$1` and
/// grey under `$2`.
pub fn palette_for_key(key: &str) -> (palette: Palette)
    ensures
        palette@ == base_palette(key@),
{
    let colors = colors_for_key(key);
    palette_from(&colors)
}

/// The palette of the system called `os_name`, before any override. The
/// name is taken in its lowercase form, and looked up as `palette_for_key`
/// does.
pub fn get_logo_colors(os_name: &str) -> (palette: Palette)
    ensures
        palette@ == base_palette(lowercase_of(os_name@)),
{
    let key = lowercase(os_name);
    palette_for_key(key.as_str())
}

/// The palette of the system with the lowercase name `key` under the
/// given overrides.
pub fn resolve_key(key: &str, overrides: &Palette) -> (palette: Palette)
    ensures
        palette@ == resolved_palette(key@, overrides@),
{
    let mut palette = palette_for_key(key);
    if palette.is_empty() {
        let defaults = vec![
            Color::Cyan,
            Color::Blue,
            Color::Green,
            Color::Yellow,
            Color::Red,
            Color::Magenta,
            Color::White,
            Color::DarkGrey,
        ];
        palette = palette_from(&defaults);
    }
    palette.merge(overrides);
    palette
}

/// The palette of the system called `identifier` under the given
/// overrides. The identifier is taken in its lowercase form; an identifier
/// that the table does not know resolves to the fallback palette, never to
/// an error.
pub fn resolve(identifier: &str, overrides: &Palette) -> (palette: Palette)
    ensures
        palette@ == resolved_palette(lowercase_of(identifier@), overrides@),
{
    let key = lowercase(identifier);
    resolve_key(key.as_str(), overrides)
}

} // verus!
