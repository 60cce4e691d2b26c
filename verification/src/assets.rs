//! Where logos are looked for: the files that may hold the logo of a name,
//! the names on offer among the files found, and the logo that stands in
//! for a name without a file of its own.

use crate::color::Color;
use crate::logo::texts_of;
use crate::order::{lemma_precedes_transitive, place, precedes, Place};
use crate::resolve::{
    base_palette, fallback_colors, get_logo_colors, lowercase_of, palette_from, palette_of,
};
use crate::text::{chars_of, ends_with, has_suffix, push_str, same_chars, string_of};
use vstd::prelude::*;

verus! {

/// The text of an optional string.
pub open spec fn text_of(s: Option<&str>) -> Option<Seq<char>> {
    match s {
        Some(t) => Some(t@),
        None => None,
    }
}

/// The one path under the directory `dir`, if there is such a directory.
pub open spec fn under(dir: Option<Seq<char>>, rest: Seq<char>) -> Seq<Seq<char>> {
    match dir {
        Some(d) => seq![d + rest],
        None => Seq::empty(),
    }
}

/// The files that may hold the logo called `name`, in the order in which
/// they are tried: the two directories of a source tree, the directory
/// that the user names, the user's data directory, the directory beside
/// the program, the two system directories, the user's home.
pub open spec fn candidate_path_texts(
    name: Seq<char>,
    logo_dir: Option<Seq<char>>,
    data_home: Option<Seq<char>>,
    exe_prefix: Option<Seq<char>>,
    home: Option<Seq<char>>,
) -> Seq<Seq<char>> {
    let file = name + ".txt"@;
    seq!["src/logo/ascii/"@ + file, "logo/ascii/"@ + file] + under(logo_dir, "/"@ + file) + under(
        data_home,
        "/fastfetch-rs/logos/"@ + file,
    ) + under(exe_prefix, "/share/fastfetch-rs/logos/"@ + file) + seq![
        "/usr/share/fastfetch-rs/logos/"@ + file,
        "/usr/local/share/fastfetch-rs/logos/"@ + file,
    ] + under(home, "/.local/share/fastfetch-rs/logos/"@ + file)
}

/// The patterns that find the logo files on offer: the two directories of
/// a source tree, the two system directories, the directory beside the
/// program.
pub open spec fn search_pattern_texts(exe_prefix: Option<Seq<char>>) -> Seq<Seq<char>> {
    seq![
        "src/logo/ascii/*.txt"@,
        "logo/ascii/*.txt"@,
        "/usr/share/fastfetch-rs/logos/*.txt"@,
        "/usr/local/share/fastfetch-rs/logos/*.txt"@,
    ] + under(exe_prefix, "/share/fastfetch-rs/logos/*.txt"@)
}

/// The path `dir`, `middle`, `name` and `.txt`.
fn logo_path(dir: &str, middle: &str, name: &str) -> (path: String)
    ensures
        path@ == dir@ + (middle@ + (name@ + ".txt"@)),
{
    let mut out: Vec<char> = Vec::new();
    push_str(&mut out, dir);
    push_str(&mut out, middle);
    push_str(&mut out, name);
    push_str(&mut out, ".txt");
    proof {
        assert(out@ =~= dir@ + (middle@ + (name@ + ".txt"@)));
    }
    string_of(&out)
}

/// Appends the path under `dir` to `paths`, if there is such a directory.
fn push_under(paths: &mut Vec<String>, dir: Option<&str>, middle: &str, name: &str)
    ensures
        texts_of(final(paths)@) == texts_of(old(paths)@) + under(
            text_of(dir),
            middle@ + (name@ + ".txt"@),
        ),
{
    match dir {
        Some(d) => {
            let path = logo_path(d, middle, name);
            paths.push(path);
            proof {
                assert(texts_of(paths@) =~= texts_of(old(paths)@) + under(
                    text_of(dir),
                    middle@ + (name@ + ".txt"@),
                ));
            }
        },
        None => {
            proof {
                assert(texts_of(paths@) =~= texts_of(old(paths)@) + under(
                    text_of(dir),
                    middle@ + (name@ + ".txt"@),
                ));
            }
        },
    }
}

/// Appends a path without a directory in front to `paths`.
fn push_fixed(paths: &mut Vec<String>, middle: &str, name: &str)
    ensures
        texts_of(final(paths)@) == texts_of(old(paths)@).push(middle@ + (name@ + ".txt"@)),
{
    let path = logo_path("", middle, name);
    proof {
        reveal_strlit("");
        assert(path@ =~= middle@ + (name@ + ".txt"@));
    }
    paths.push(path);
    proof {
        assert(texts_of(paths@) =~= texts_of(old(paths)@).push(middle@ + (name@ + ".txt"@)));
    }
}

/// The files that may hold the logo called `name`, in the order in which
/// they are tried.
pub fn candidate_paths(
    name: &str,
    logo_dir: Option<&str>,
    data_home: Option<&str>,
    exe_prefix: Option<&str>,
    home: Option<&str>,
) -> (paths: Vec<String>)
    ensures
        texts_of(paths@) == candidate_path_texts(
            name@,
            text_of(logo_dir),
            text_of(data_home),
            text_of(exe_prefix),
            text_of(home),
        ),
{
    let mut paths: Vec<String> = Vec::new();
    proof {
        assert(texts_of(paths@) =~= Seq::<Seq<char>>::empty());
    }
    push_fixed(&mut paths, "src/logo/ascii/", name);
    push_fixed(&mut paths, "logo/ascii/", name);
    push_under(&mut paths, logo_dir, "/", name);
    push_under(&mut paths, data_home, "/fastfetch-rs/logos/", name);
    push_under(&mut paths, exe_prefix, "/share/fastfetch-rs/logos/", name);
    push_fixed(&mut paths, "/usr/share/fastfetch-rs/logos/", name);
    push_fixed(&mut paths, "/usr/local/share/fastfetch-rs/logos/", name);
    push_under(&mut paths, home, "/.local/share/fastfetch-rs/logos/", name);
    proof {
        assert(texts_of(paths@) =~= candidate_path_texts(
            name@,
            text_of(logo_dir),
            text_of(data_home),
            text_of(exe_prefix),
            text_of(home),
        ));
    }
    paths
}

/// The patterns that find the logo files on offer.
pub fn search_patterns(exe_prefix: Option<&str>) -> (patterns: Vec<String>)
    ensures
        texts_of(patterns@) == search_pattern_texts(text_of(exe_prefix)),
{
    let mut patterns: Vec<String> = Vec::new();
    patterns.push(string_of(&chars_of("src/logo/ascii/*.txt")));
    patterns.push(string_of(&chars_of("logo/ascii/*.txt")));
    patterns.push(string_of(&chars_of("/usr/share/fastfetch-rs/logos/*.txt")));
    patterns.push(string_of(&chars_of("/usr/local/share/fastfetch-rs/logos/*.txt")));
    match exe_prefix {
        Some(prefix) => {
            let mut out: Vec<char> = Vec::new();
            push_str(&mut out, prefix);
            push_str(&mut out, "/share/fastfetch-rs/logos/*.txt");
            patterns.push(string_of(&out));
        },
        None => {},
    }
    proof {
        assert(texts_of(patterns@) =~= search_pattern_texts(text_of(exe_prefix)));
    }
    patterns
}

/// Whether a logo of this name is on offer: the small and the old variants
/// of a logo are not.
pub open spec fn is_listed(name: Seq<char>) -> bool {
    !ends_with(name, "_small"@) && !ends_with(name, "_old"@)
}

/// Tests whether a logo of this name is on offer.
pub fn is_listed_name(name: &Vec<char>) -> (listed: bool)
    ensures
        listed == is_listed(name@),
{
    !has_suffix(name, &chars_of("_small")) && !has_suffix(name, &chars_of("_old"))
}

/// Whether each text of `names` comes strictly before those behind it.
pub open spec fn strictly_ascending(names: Seq<Seq<char>>) -> bool {
    forall|i: int, j: int| 0 <= i < j < names.len() ==> precedes(names[i], names[j])
}

/// Whether `names` holds exactly the texts of `given` that are on offer.
pub open spec fn holds_listed(names: Seq<Seq<char>>, given: Seq<Seq<char>>) -> bool {
    forall|n: Seq<char>| #[trigger] names.contains(n) <==> (given.contains(n) && is_listed(n))
}

/// The texts of a list of character vectors.
pub open spec fn char_texts(names: Seq<Vec<char>>) -> Seq<Seq<char>> {
    Seq::new(names.len(), |i: int| names[i]@)
}

/// Puts `name` into the ascending list `names`, unless it is there.
fn insert_ascending(names: &mut Vec<Vec<char>>, name: Vec<char>)
    requires
        strictly_ascending(char_texts(old(names)@)),
    ensures
        strictly_ascending(char_texts(final(names)@)),
        forall|n: Seq<char>|
            char_texts(final(names)@).contains(n) <==> (char_texts(old(names)@).contains(n) || n
                == name@),
{
    let ghost before = char_texts(names@);
    let mut p: usize = 0;
    let mut stop = false;
    while p < names.len() && !stop
        invariant
            p <= names@.len(),
            names@ == old(names)@,
            before == char_texts(names@),
            strictly_ascending(before),
            forall|i: int| 0 <= i < p ==> precedes(#[trigger] before[i], name@),
            stop ==> p < names@.len() && precedes(name@, before[p as int]),
        decreases names@.len() - p, (if stop { 0int } else { 1int }),
    {
        assert(before[p as int] == names@[p as int]@);
        match place(&names[p], &name) {
            Place::Before => {
                p += 1;
            },
            Place::Same => {
                proof {
                    assert(before.contains(name@));
                }
                return ;
            },
            Place::After => {
                stop = true;
            },
        }
    }
    proof {
        assert(p < names@.len() ==> precedes(name@, before[p as int]));
    }
    names.insert(p, name);
    proof {
        let after = char_texts(names@);
        assert(after =~= before.insert(p as int, name@));
        assert forall|i: int, j: int| 0 <= i < j < after.len() implies precedes(
            after[i],
            after[j],
        ) by {
            if j < p {
                assert(after[i] == before[i] && after[j] == before[j]);
            } else if j == p {
                assert(after[i] == before[i]);
            } else if i == p {
                assert(after[j] == before[j - 1]);
                if j - 1 > p {
                    assert(precedes(before[p as int], before[j - 1]));
                    lemma_precedes_transitive(name@, before[p as int], before[j - 1]);
                }
            } else if i < p {
                assert(after[i] == before[i] && after[j] == before[j - 1]);
            } else {
                assert(after[i] == before[i - 1] && after[j] == before[j - 1]);
            }
        }
        assert forall|n: Seq<char>| after.contains(n) <==> (before.contains(n) || n
            == name@) by {
            if after.contains(n) {
                let k = choose|k: int| 0 <= k < after.len() && after[k] == n;
                if k < p {
                    assert(before[k] == n);
                } else if k > p {
                    assert(before[k - 1] == n);
                }
            }
            if before.contains(n) {
                let k = choose|k: int| 0 <= k < before.len() && before[k] == n;
                if k < p {
                    assert(after[k] == n);
                } else {
                    assert(after[k + 1] == n);
                }
            }
            if n == name@ {
                assert(after[p as int] == n);
            }
        }
    }
}

/// The names of the logos on offer among the names of the files found:
/// without the small and the old variants, in ascending order, each name
/// once.
pub fn list_available(stems: &Vec<String>) -> (names: Vec<String>)
    ensures
        strictly_ascending(texts_of(names@)),
        holds_listed(texts_of(names@), texts_of(stems@)),
{
    let ghost given = texts_of(stems@);
    let mut sorted: Vec<Vec<char>> = Vec::new();
    let mut i: usize = 0;
    proof {
        assert(char_texts(sorted@) =~= Seq::<Seq<char>>::empty());
        assert(given.subrange(0, 0) =~= Seq::<Seq<char>>::empty());
    }
    while i < stems.len()
        invariant
            i <= stems@.len(),
            given == texts_of(stems@),
            strictly_ascending(char_texts(sorted@)),
            holds_listed(char_texts(sorted@), given.subrange(0, i as int)),
        decreases stems@.len() - i,
    {
        let ghost before = char_texts(sorted@);
        let name = chars_of(stems[i].as_str());
        proof {
            assert(given[i as int] == name@);
            let part = given.subrange(0, i as int);
            let more = given.subrange(0, i + 1);
            assert(more =~= part.push(name@));
            assert forall|n: Seq<char>| more.contains(n) <==> (part.contains(n) || n
                == name@) by {
                if more.contains(n) {
                    let k = choose|k: int| 0 <= k < more.len() && more[k] == n;
                    if k < i {
                        assert(part[k] == n);
                    }
                }
                if part.contains(n) {
                    let k = choose|k: int| 0 <= k < part.len() && part[k] == n;
                    assert(more[k] == n);
                }
                if n == name@ {
                    assert(more[i as int] == n);
                }
            }
        }
        let ghost text = name@;
        if is_listed_name(&name) {
            insert_ascending(&mut sorted, name);
        }
        proof {
            let part = given.subrange(0, i as int);
            let more = given.subrange(0, i + 1);
            let after = char_texts(sorted@);
            assert forall|n: Seq<char>| #[trigger]
                after.contains(n) <==> (more.contains(n) && is_listed(n)) by {
                assert(more.contains(n) <==> (part.contains(n) || n == text));
                assert(before.contains(n) <==> (part.contains(n) && is_listed(n)));
                if is_listed(text) {
                    assert(after.contains(n) <==> (before.contains(n) || n == text));
                }
            }
        }
        i += 1;
    }
    proof {
        assert(given.subrange(0, i as int) =~= given);
    }
    let mut names: Vec<String> = Vec::new();
    let mut k: usize = 0;
    proof {
        assert(texts_of(names@) =~= char_texts(sorted@).subrange(0, 0));
    }
    while k < sorted.len()
        invariant
            k <= sorted@.len(),
            texts_of(names@) == char_texts(sorted@).subrange(0, k as int),
        decreases sorted@.len() - k,
    {
        let ghost so_far = texts_of(names@);
        let name = string_of(&sorted[k]);
        names.push(name);
        proof {
            assert(texts_of(names@) =~= so_far.push(sorted@[k as int]@));
            assert(char_texts(sorted@).subrange(0, k + 1) =~= char_texts(sorted@).subrange(
                0,
                k as int,
            ).push(sorted@[k as int]@));
        }
        k += 1;
    }
    proof {
        assert(texts_of(names@) =~= char_texts(sorted@));
    }
    names
}

/// Whether the logo of `candidate` stands in for the logo of `identifier`:
/// the identifier resolves to the palette of an unknown system, the
/// candidate is another name, and it resolves to the same palette.
pub open spec fn recovers(identifier: Seq<char>, candidate: Seq<char>) -> bool {
    &&& candidate != identifier
    &&& base_palette(lowercase_of(identifier)) == palette_of(fallback_colors())
    &&& base_palette(lowercase_of(candidate)) == base_palette(lowercase_of(identifier))
}

/// Finds the first name from position `start` of `candidates` on whose
/// logo stands in for the logo of `identifier`.
pub fn find_alias(identifier: &str, candidates: &Vec<String>, start: usize) -> (found: Option<
    usize,
>)
    ensures
        match found {
            Some(i) => start <= i < candidates@.len() && recovers(
                identifier@,
                candidates@[i as int]@,
            ) && forall|j: int| start <= j < i ==> !recovers(identifier@, candidates@[j]@),
            None => forall|j: int|
                start <= j < candidates@.len() ==> !recovers(identifier@, candidates@[j]@),
        },
{
    let wanted = get_logo_colors(identifier);
    let generic = palette_from(&vec![Color::White, Color::Grey]);
    if !wanted.same_as(&generic) {
        return None;
    }
    let own = chars_of(identifier);
    let mut i: usize = start;
    while i < candidates.len()
        invariant
            start <= i,
            own@ == identifier@,
            wanted@ == base_palette(lowercase_of(identifier@)),
            wanted@ == palette_of(fallback_colors()),
            forall|j: int| start <= j < i && j < candidates@.len() ==> !recovers(
                identifier@,
                candidates@[j]@,
            ),
        decreases candidates@.len() - i,
    {
        let other = chars_of(candidates[i].as_str());
        if !same_chars(&other, &own) {
            let palette = get_logo_colors(candidates[i].as_str());
            if palette.same_as(&wanted) {
                return Some(i);
            }
        }
        i += 1;
    }
    None
}

} // verus!
