//! Character-level helpers for strings: conversion between strings and
//! character vectors, decimal rendering and substring search.

use vstd::prelude::*;
use vstd::std_specs::iter::IteratorSpec;

verus! {

broadcast use vstd::string::group_string_axioms;

/// `String::push` appends exactly one character at the end of the string.
pub assume_specification[ String::push ](s: &mut String, ch: char)
    ensures
        final(s)@ == old(s)@.push(ch),
;

/// The characters of `s`, in order.
pub fn chars_of(s: &str) -> (out: Vec<char>)
    ensures
        out@ == s@,
{
    let mut out: Vec<char> = Vec::new();
    for c in it: s.chars()
        invariant
            it.seq() == s@,
            out@ == s@.subrange(0, it.index()),
    {
        out.push(c);
    }
    out
}

/// The string made of the characters of `v`, in order.
pub fn string_of(v: &Vec<char>) -> (out: String)
    ensures
        out@ == v@,
{
    let mut out = String::new();
    let mut i: usize = 0;
    while i < v.len()
        invariant
            i <= v.len(),
            out@ == v@.subrange(0, i as int),
        decreases v.len() - i,
    {
        out.push(v[i]);
        i += 1;
    }
    out
}

/// Appends the characters of `s` to `out`.
pub fn push_str(out: &mut Vec<char>, s: &str)
    ensures
        final(out)@ == old(out)@ + s@,
{
    for c in it: s.chars()
        invariant
            it.seq() == s@,
            out@ == old(out)@ + s@.subrange(0, it.index()),
    {
        out.push(c);
    }
}

/// Appends the elements of `src` to `out`.
pub fn push_all(out: &mut Vec<char>, src: &Vec<char>)
    ensures
        final(out)@ == old(out)@ + src@,
{
    let mut i: usize = 0;
    while i < src.len()
        invariant
            i <= src.len(),
            out@ == old(out)@ + src@.subrange(0, i as int),
        decreases src.len() - i,
    {
        out.push(src[i]);
        i += 1;
    }
}

/// `n` copies of the character `c`.
pub open spec fn repeated(c: char, n: nat) -> Seq<char> {
    Seq::new(n, |i: int| c)
}

/// Appends `n` copies of `c` to `out`.
pub fn push_repeated(out: &mut Vec<char>, c: char, n: usize)
    ensures
        final(out)@ == old(out)@ + repeated(c, n as nat),
{
    let mut i: usize = 0;
    while i < n
        invariant
            i <= n,
            out@ == old(out)@ + repeated(c, i as nat),
        decreases n - i,
    {
        out.push(c);
        i += 1;
    }
}

/// Whether `c` is one of the ten ASCII decimal digits.
pub open spec fn is_digit(c: char) -> bool {
    '0' <= c && c <= '9'
}

/// Whether `text` is made of decimal digits only.
pub open spec fn all_digits(text: Seq<char>) -> bool {
    forall|i: int| 0 <= i < text.len() ==> is_digit(#[trigger] text[i])
}

/// The ASCII digit that stands for `d`, for `d` below ten.
pub open spec fn digit_char(d: nat) -> char {
    if d == 0 {
        '0'
    } else if d == 1 {
        '1'
    } else if d == 2 {
        '2'
    } else if d == 3 {
        '3'
    } else if d == 4 {
        '4'
    } else if d == 5 {
        '5'
    } else if d == 6 {
        '6'
    } else if d == 7 {
        '7'
    } else if d == 8 {
        '8'
    } else {
        '9'
    }
}

/// The value of the ASCII digit `c`.
pub open spec fn digit_value(c: char) -> nat {
    if c == '1' {
        1
    } else if c == '2' {
        2
    } else if c == '3' {
        3
    } else if c == '4' {
        4
    } else if c == '5' {
        5
    } else if c == '6' {
        6
    } else if c == '7' {
        7
    } else if c == '8' {
        8
    } else if c == '9' {
        9
    } else {
        0
    }
}

/// The decimal numeral of `n`, without sign or leading zeros.
pub open spec fn decimal(n: nat) -> Seq<char>
    decreases n,
{
    if n < 10 {
        seq![digit_char(n)]
    } else {
        decimal(n / 10).push(digit_char(n % 10))
    }
}

/// The ASCII digit for `d`.
pub(crate) fn digit_of(d: u64) -> (c: char)
    requires
        d < 10,
    ensures
        c == digit_char(d as nat),
        is_digit(c),
{
    if d == 0 {
        '0'
    } else if d == 1 {
        '1'
    } else if d == 2 {
        '2'
    } else if d == 3 {
        '3'
    } else if d == 4 {
        '4'
    } else if d == 5 {
        '5'
    } else if d == 6 {
        '6'
    } else if d == 7 {
        '7'
    } else if d == 8 {
        '8'
    } else {
        '9'
    }
}

/// Appends the decimal numeral of `n` to `out`.
pub fn push_decimal(out: &mut Vec<char>, n: u64)
    ensures
        final(out)@ == old(out)@ + decimal(n as nat),
    decreases n,
{
    if n >= 10 {
        push_decimal(out, n / 10);
    }
    out.push(digit_of(n % 10));
}

/// Whether `pat` stands in `hay` at position `i`.
pub open spec fn occurs_at(hay: Seq<char>, pat: Seq<char>, i: int) -> bool {
    0 <= i && i + pat.len() <= hay.len() && hay.subrange(i, i + pat.len()) == pat
}

/// Whether `pat` stands somewhere in `hay`.
pub open spec fn contains(hay: Seq<char>, pat: Seq<char>) -> bool {
    exists|i: int| occurs_at(hay, pat, i)
}

/// Whether `i` is the leftmost position at which `pat` stands in `hay`.
pub open spec fn is_first_occurrence(hay: Seq<char>, pat: Seq<char>, i: int) -> bool {
    occurs_at(hay, pat, i) && forall|j: int| j < i ==> !occurs_at(hay, pat, j)
}

/// Whether `i` is the rightmost position at which `pat` stands in `hay`.
pub open spec fn is_last_occurrence(hay: Seq<char>, pat: Seq<char>, i: int) -> bool {
    occurs_at(hay, pat, i) && forall|j: int| i < j ==> !occurs_at(hay, pat, j)
}

/// The leftmost position at which `pat` stands in `hay`, if there is one.
pub open spec fn first_occurrence(hay: Seq<char>, pat: Seq<char>) -> Option<int> {
    if contains(hay, pat) {
        Some(choose|i: int| is_first_occurrence(hay, pat, i))
    } else {
        None
    }
}

/// The rightmost position at which `pat` stands in `hay`, if there is one.
pub open spec fn last_occurrence(hay: Seq<char>, pat: Seq<char>) -> Option<int> {
    if contains(hay, pat) {
        Some(choose|i: int| is_last_occurrence(hay, pat, i))
    } else {
        None
    }
}

/// A leftmost occurrence is the one that `first_occurrence` names.
pub proof fn lemma_first_occurrence(hay: Seq<char>, pat: Seq<char>, i: int)
    requires
        is_first_occurrence(hay, pat, i),
    ensures
        first_occurrence(hay, pat) == Some(i),
{
    let c = choose|k: int| is_first_occurrence(hay, pat, k);
    assert(is_first_occurrence(hay, pat, c));
    if c < i {
        assert(!occurs_at(hay, pat, c));
    }
    if i < c {
        assert(!occurs_at(hay, pat, i));
    }
}

/// A rightmost occurrence is the one that `last_occurrence` names.
pub proof fn lemma_last_occurrence(hay: Seq<char>, pat: Seq<char>, i: int)
    requires
        is_last_occurrence(hay, pat, i),
    ensures
        last_occurrence(hay, pat) == Some(i),
{
    let c = choose|k: int| is_last_occurrence(hay, pat, k);
    assert(is_last_occurrence(hay, pat, c));
    if c < i {
        assert(!occurs_at(hay, pat, i));
    }
    if i < c {
        assert(!occurs_at(hay, pat, c));
    }
}

/// Tests whether `pat` stands in `hay` at position `i`.
pub fn occurs_at_index(hay: &Vec<char>, pat: &Vec<char>, i: usize) -> (found: bool)
    ensures
        found == occurs_at(hay@, pat@, i as int),
{
    if pat.len() > hay.len() || i > hay.len() - pat.len() {
        return false;
    }
    let mut k: usize = 0;
    while k < pat.len()
        invariant
            k <= pat.len(),
            i + pat.len() <= hay.len(),
            forall|j: int| 0 <= j < k ==> hay@[i + j] == pat@[j],
        decreases pat.len() - k,
    {
        if hay[i + k] != pat[k] {
            proof {
                let sub = hay@.subrange(i as int, i + pat.len());
                assert(sub[k as int] == hay@[i + k]);
            }
            return false;
        }
        k += 1;
    }
    assert(hay@.subrange(i as int, i + pat.len()) =~= pat@);
    true
}

/// The leftmost position at which `pat` stands in `hay`.
pub fn find(hay: &Vec<char>, pat: &Vec<char>) -> (found: Option<usize>)
    ensures
        match found {
            Some(i) => first_occurrence(hay@, pat@) == Some(i as int) && is_first_occurrence(
                hay@,
                pat@,
                i as int,
            ),
            None => first_occurrence(hay@, pat@) is None,
        },
{
    let mut i: usize = 0;
    loop
        invariant
            i <= hay.len(),
            forall|j: int| j < i ==> !occurs_at(hay@, pat@, j),
        decreases hay.len() - i,
    {
        if occurs_at_index(hay, pat, i) {
            proof {
                lemma_first_occurrence(hay@, pat@, i as int);
            }
            return Some(i);
        }
        if i == hay.len() {
            assert(forall|j: int| !occurs_at(hay@, pat@, j));
            return None;
        }
        i += 1;
    }
}

/// The rightmost position at which `pat` stands in `hay`.
pub fn rfind(hay: &Vec<char>, pat: &Vec<char>) -> (found: Option<usize>)
    ensures
        match found {
            Some(i) => last_occurrence(hay@, pat@) == Some(i as int) && is_last_occurrence(
                hay@,
                pat@,
                i as int,
            ),
            None => last_occurrence(hay@, pat@) is None,
        },
{
    let mut i: usize = hay.len();
    loop
        invariant
            i <= hay.len(),
            forall|j: int| i < j ==> !occurs_at(hay@, pat@, j),
        decreases i,
    {
        if occurs_at_index(hay, pat, i) {
            proof {
                lemma_last_occurrence(hay@, pat@, i as int);
            }
            return Some(i);
        }
        if i == 0 {
            assert(forall|j: int| !occurs_at(hay@, pat@, j));
            return None;
        }
        i -= 1;
    }
}

/// Tests whether `pat` stands somewhere in `hay`.
pub fn has_substring(hay: &Vec<char>, pat: &Vec<char>) -> (found: bool)
    ensures
        found == contains(hay@, pat@),
{
    find(hay, pat).is_some()
}

/// Tests whether `a` and `b` hold the same characters in the same order.
pub fn same_chars(a: &Vec<char>, b: &Vec<char>) -> (same: bool)
    ensures
        same == (a@ == b@),
{
    if a.len() != b.len() {
        return false;
    }
    let mut i: usize = 0;
    while i < a.len()
        invariant
            i <= a.len(),
            a.len() == b.len(),
            forall|j: int| 0 <= j < i ==> a@[j] == b@[j],
        decreases a.len() - i,
    {
        if a[i] != b[i] {
            return false;
        }
        i += 1;
    }
    assert(a@ =~= b@);
    true
}

/// Tests whether `v` holds exactly the characters of `lit`.
pub fn equals_str(v: &Vec<char>, lit: &str) -> (same: bool)
    ensures
        same == (v@ == lit@),
{
    let w = chars_of(lit);
    same_chars(v, &w)
}

/// The first position at or after `from` at which `s` has the character
/// `c`; the length of `s` if there is none.
pub open spec fn next_index_of(s: Seq<char>, c: char, from: int) -> int
    decreases s.len() - from,
{
    if from < 0 || from >= s.len() {
        s.len() as int
    } else if s[from] == c {
        from
    } else {
        next_index_of(s, c, from + 1)
    }
}

/// `next_index_of` stays within the rest of the text, names the character
/// where it stops short of the end, and passes over none.
pub proof fn lemma_next_index_of(s: Seq<char>, c: char, from: int)
    requires
        0 <= from <= s.len(),
    ensures
        from <= next_index_of(s, c, from) <= s.len(),
        next_index_of(s, c, from) < s.len() ==> s[next_index_of(s, c, from)] == c,
        forall|j: int| from <= j < next_index_of(s, c, from) ==> s[j] != c,
    decreases s.len() - from,
{
    if from < s.len() && s[from] != c {
        lemma_next_index_of(s, c, from + 1);
    }
}

/// Finds the first `c` at or after `from`.
pub(crate) fn find_char_from(v: &Vec<char>, c: char, from: usize) -> (end: usize)
    requires
        from <= v@.len(),
    ensures
        end == next_index_of(v@, c, from as int),
        from <= end <= v@.len(),
{
    let mut j: usize = from;
    while j < v.len() && v[j] != c
        invariant
            from <= j <= v@.len(),
            next_index_of(v@, c, from as int) == next_index_of(v@, c, j as int),
        decreases v@.len() - j,
    {
        j += 1;
    }
    j
}

/// Whether `s` ends with `tail`.
pub open spec fn ends_with(s: Seq<char>, tail: Seq<char>) -> bool {
    tail.len() <= s.len() && s.subrange(s.len() - tail.len(), s.len() as int) == tail
}

/// Tests whether `v` ends with `tail`.
pub fn has_suffix(v: &Vec<char>, tail: &Vec<char>) -> (found: bool)
    ensures
        found == ends_with(v@, tail@),
{
    if tail.len() > v.len() {
        return false;
    }
    let found = occurs_at_index(v, tail, v.len() - tail.len());
    found
}

/// The part of `v` from position `from` up to position `to`.
pub(crate) fn slice_of(v: &Vec<char>, from: usize, to: usize) -> (part: Vec<char>)
    requires
        from <= to <= v@.len(),
    ensures
        part@ == v@.subrange(from as int, to as int),
{
    let mut part: Vec<char> = Vec::new();
    let mut i: usize = from;
    while i < to
        invariant
            from <= i <= to,
            to <= v@.len(),
            part@ == v@.subrange(from as int, i as int),
        decreases to - i,
    {
        part.push(v[i]);
        proof {
            assert(v@.subrange(from as int, i + 1) =~= v@.subrange(from as int, i as int).push(
                v@[i as int],
            ));
        }
        i += 1;
    }
    part
}

} // verus!
