//! Blank space in texts: trimming at both ends, splitting into words, and
//! the reading of decimal numbers.

use crate::text::{all_digits, digit_value, is_digit, slice_of};
use vstd::prelude::*;

verus! {

/// Whether `c` is blank space: one of the characters with the Unicode
/// property White_Space.
pub open spec fn is_space(c: char) -> bool {
    ||| ('\u{9}' <= c && c <= '\u{d}')
    ||| c == ' '
    ||| c == '\u{85}'
    ||| c == '\u{a0}'
    ||| c == '\u{1680}'
    ||| ('\u{2000}' <= c && c <= '\u{200a}')
    ||| c == '\u{2028}'
    ||| c == '\u{2029}'
    ||| c == '\u{202f}'
    ||| c == '\u{205f}'
    ||| c == '\u{3000}'
}

/// Tests whether `c` is blank space.
pub fn is_space_char(c: char) -> (space: bool)
    ensures
        space == is_space(c),
{
    ('\u{9}' <= c && c <= '\u{d}') || c == ' ' || c == '\u{85}' || c == '\u{a0}' || c
        == '\u{1680}' || ('\u{2000}' <= c && c <= '\u{200a}') || c == '\u{2028}' || c
        == '\u{2029}' || c == '\u{202f}' || c == '\u{205f}' || c == '\u{3000}'
}

/// The first position at or after `from` that holds no blank space; the
/// length of `s` if there is none.
pub open spec fn skip_spaces(s: Seq<char>, from: int) -> int
    decreases s.len() - from,
{
    if from < 0 || from >= s.len() {
        s.len() as int
    } else if !is_space(s[from]) {
        from
    } else {
        skip_spaces(s, from + 1)
    }
}

/// The first position at or after `from` that holds blank space; the
/// length of `s` if there is none.
pub open spec fn skip_word(s: Seq<char>, from: int) -> int
    decreases s.len() - from,
{
    if from < 0 || from >= s.len() {
        s.len() as int
    } else if is_space(s[from]) {
        from
    } else {
        skip_word(s, from + 1)
    }
}

/// `skip_spaces` stays within the rest of the text.
pub proof fn lemma_skip_spaces(s: Seq<char>, from: int)
    requires
        0 <= from <= s.len(),
    ensures
        from <= skip_spaces(s, from) <= s.len(),
        skip_spaces(s, from) < s.len() ==> !is_space(s[skip_spaces(s, from)]),
    decreases s.len() - from,
{
    if from < s.len() && is_space(s[from]) {
        lemma_skip_spaces(s, from + 1);
    }
}

/// `skip_word` stays within the rest of the text, and passes over a
/// character that is no blank space.
pub proof fn lemma_skip_word(s: Seq<char>, from: int)
    requires
        0 <= from <= s.len(),
    ensures
        from <= skip_word(s, from) <= s.len(),
        from < s.len() && !is_space(s[from]) ==> from < skip_word(s, from),
    decreases s.len() - from,
{
    if from < s.len() && !is_space(s[from]) {
        lemma_skip_word(s, from + 1);
    }
}

/// `s` without the blank space at its end.
pub open spec fn trimmed_back(s: Seq<char>) -> Seq<char>
    decreases s.len(),
{
    if s.len() > 0 && is_space(s.last()) {
        trimmed_back(s.drop_last())
    } else {
        s
    }
}

/// `s` without the blank space at its start and at its end.
pub open spec fn trimmed(s: Seq<char>) -> Seq<char> {
    trimmed_back(s.subrange(skip_spaces(s, 0), s.len() as int))
}

/// The words of `s` from position `from` on.
pub open spec fn words_from(s: Seq<char>, from: int) -> Seq<Seq<char>>
    decreases s.len() - from,
{
    if from < 0 || from >= s.len() {
        Seq::empty()
    } else {
        let start = skip_spaces(s, from);
        let end = skip_word(s, start);
        proof {
            lemma_skip_spaces(s, from);
            lemma_skip_word(s, start);
        }
        if start >= s.len() {
            Seq::empty()
        } else {
            seq![s.subrange(start, end)] + words_from(s, end)
        }
    }
}

/// The words of `s`: its longest runs of characters without blank space.
pub open spec fn words(s: Seq<char>) -> Seq<Seq<char>> {
    words_from(s, 0)
}

/// Whether `s` starts with `head`.
pub open spec fn starts_with(s: Seq<char>, head: Seq<char>) -> bool {
    head.len() <= s.len() && s.subrange(0, head.len() as int) == head
}

/// `s` without the run of `c` at its start.
pub open spec fn without_leading(s: Seq<char>, c: char) -> Seq<char>
    decreases s.len(),
{
    if s.len() > 0 && s[0] == c {
        without_leading(s.subrange(1, s.len() as int), c)
    } else {
        s
    }
}

/// `s` without the run of `c` at its end.
pub open spec fn without_trailing(s: Seq<char>, c: char) -> Seq<char>
    decreases s.len(),
{
    if s.len() > 0 && s.last() == c {
        without_trailing(s.drop_last(), c)
    } else {
        s
    }
}

/// `s` without the runs of `c` at its start and at its end.
pub open spec fn without_both(s: Seq<char>, c: char) -> Seq<char> {
    without_trailing(without_leading(s, c), c)
}

/// `s` without `head` at its start, as often as it stands there.
pub open spec fn without_prefixes(s: Seq<char>, head: Seq<char>) -> Seq<char>
    decreases s.len(),
{
    if head.len() > 0 && starts_with(s, head) {
        without_prefixes(s.subrange(head.len() as int, s.len() as int), head)
    } else {
        s
    }
}

/// Finds the first position at or after `from` without blank space.
pub(crate) fn skip_spaces_from(v: &Vec<char>, from: usize) -> (at: usize)
    requires
        from <= v@.len(),
    ensures
        at == skip_spaces(v@, from as int),
        from <= at <= v@.len(),
{
    let mut j: usize = from;
    while j < v.len() && is_space_char(v[j])
        invariant
            from <= j <= v@.len(),
            skip_spaces(v@, from as int) == skip_spaces(v@, j as int),
        decreases v@.len() - j,
    {
        j += 1;
    }
    j
}

/// Finds the first position at or after `from` with blank space.
pub(crate) fn skip_word_from(v: &Vec<char>, from: usize) -> (at: usize)
    requires
        from <= v@.len(),
    ensures
        at == skip_word(v@, from as int),
        from <= at <= v@.len(),
{
    let mut j: usize = from;
    while j < v.len() && !is_space_char(v[j])
        invariant
            from <= j <= v@.len(),
            skip_word(v@, from as int) == skip_word(v@, j as int),
        decreases v@.len() - j,
    {
        j += 1;
    }
    j
}

/// `v` without the blank space at its start and at its end.
pub fn trim(v: &Vec<char>) -> (kept: Vec<char>)
    ensures
        kept@ == trimmed(v@),
{
    let start = skip_spaces_from(v, 0);
    let mut end: usize = v.len();
    proof {
        assert(v@.subrange(start as int, end as int) =~= v@.subrange(
            start as int,
            v@.len() as int,
        ));
    }
    while end > start && is_space_char(v[end - 1])
        invariant
            start <= end <= v@.len(),
            trimmed(v@) == trimmed_back(v@.subrange(start as int, end as int)),
        decreases end,
    {
        proof {
            let part = v@.subrange(start as int, end as int);
            assert(part.drop_last() =~= v@.subrange(start as int, end - 1));
        }
        end -= 1;
    }
    proof {
        let part = v@.subrange(start as int, end as int);
        if end > start {
            assert(part.last() == v@[end - 1]);
        }
    }
    slice_of(v, start, end)
}

/// The texts of a list of character vectors.
pub open spec fn texts(items: Seq<Vec<char>>) -> Seq<Seq<char>> {
    Seq::new(items.len(), |i: int| items[i]@)
}

/// The words of `v`.
pub fn split_words(v: &Vec<char>) -> (found: Vec<Vec<char>>)
    ensures
        texts(found@) == words(v@),
{
    let mut found: Vec<Vec<char>> = Vec::new();
    let mut from: usize = 0;
    proof {
        assert(texts(found@) =~= Seq::<Seq<char>>::empty());
    }
    while from < v.len()
        invariant
            from <= v@.len(),
            texts(found@) + words_from(v@, from as int) == words(v@),
        decreases v@.len() - from,
    {
        let ghost before = texts(found@);
        let start = skip_spaces_from(v, from);
        let end = skip_word_from(v, start);
        proof {
            lemma_skip_spaces(v@, from as int);
            lemma_skip_word(v@, start as int);
        }
        if start < v.len() {
            let word = slice_of(v, start, end);
            found.push(word);
            proof {
                let piece = v@.subrange(start as int, end as int);
                let rest = words_from(v@, end as int);
                assert(texts(found@) =~= before.push(piece));
                assert(before.push(piece) + rest =~= before + (seq![piece] + rest));
            }
        } else {
            proof {
                assert(words_from(v@, end as int) =~= Seq::<Seq<char>>::empty());
            }
        }
        from = end;
    }
    proof {
        assert(texts(found@) + Seq::<Seq<char>>::empty() =~= texts(found@));
    }
    found
}

/// Tests whether `v` starts with `head`.
pub fn has_prefix(v: &Vec<char>, head: &Vec<char>) -> (found: bool)
    ensures
        found == starts_with(v@, head@),
{
    if head.len() > v.len() {
        return false;
    }
    crate::text::occurs_at_index(v, head, 0)
}

/// `v` without the runs of `c` at its start and at its end.
pub fn strip_both(v: &Vec<char>, c: char) -> (kept: Vec<char>)
    ensures
        kept@ == without_both(v@, c),
{
    let mut start: usize = 0;
    proof {
        assert(v@.subrange(0, v@.len() as int) =~= v@);
    }
    while start < v.len() && v[start] == c
        invariant
            start <= v@.len(),
            without_leading(v@, c) == without_leading(
                v@.subrange(start as int, v@.len() as int),
                c,
            ),
        decreases v@.len() - start,
    {
        proof {
            let part = v@.subrange(start as int, v@.len() as int);
            assert(part.subrange(1, part.len() as int) =~= v@.subrange(
                start + 1,
                v@.len() as int,
            ));
        }
        start += 1;
    }
    let mut end: usize = v.len();
    proof {
        let part = v@.subrange(start as int, v@.len() as int);
        if part.len() > 0 {
            assert(part[0] == v@[start as int]);
        }
        assert(without_leading(v@, c) == part);
    }
    while end > start && v[end - 1] == c
        invariant
            start <= end <= v@.len(),
            without_both(v@, c) == without_trailing(v@.subrange(start as int, end as int), c),
        decreases end,
    {
        proof {
            let part = v@.subrange(start as int, end as int);
            assert(part.drop_last() =~= v@.subrange(start as int, end - 1));
        }
        end -= 1;
    }
    proof {
        let part = v@.subrange(start as int, end as int);
        if end > start {
            assert(part.last() == v@[end - 1]);
        }
    }
    slice_of(v, start, end)
}

/// `v` without `head` at its start, as often as it stands there.
pub fn strip_prefixes(v: &Vec<char>, head: &Vec<char>) -> (kept: Vec<char>)
    ensures
        kept@ == without_prefixes(v@, head@),
{
    let n = v.len();
    let mut start: usize = 0;
    proof {
        assert(v@.subrange(0, n as int) =~= v@);
    }
    if head.len() == 0 {
        return slice_of(v, 0, n);
    }
    while n - start >= head.len() && crate::text::occurs_at_index(v, head, start)
        invariant
            start <= n,
            n == v@.len(),
            head@.len() > 0,
            without_prefixes(v@, head@) == without_prefixes(
                v@.subrange(start as int, n as int),
                head@,
            ),
        decreases n - start,
    {
        proof {
            let part = v@.subrange(start as int, n as int);
            assert(part.subrange(0, head@.len() as int) =~= v@.subrange(
                start as int,
                start + head@.len(),
            ));
            assert(part.subrange(head@.len() as int, part.len() as int) =~= v@.subrange(
                start + head@.len(),
                n as int,
            ));
        }
        start += head.len();
    }
    proof {
        let part = v@.subrange(start as int, n as int);
        if head@.len() <= part.len() {
            assert(part.subrange(0, head@.len() as int) =~= v@.subrange(
                start as int,
                start + head@.len(),
            ));
        }
    }
    slice_of(v, start, n)
}

/// Whether `s` writes a number: an optional `+` and one or more decimal
/// digits.
pub open spec fn is_number(s: Seq<char>) -> bool {
    if s.len() > 0 && s[0] == '+' {
        s.len() > 1 && all_digits(s.subrange(1, s.len() as int))
    } else {
        s.len() > 0 && all_digits(s)
    }
}

/// The number that the digits of `s` write, whatever stands before them.
pub open spec fn number_value(s: Seq<char>) -> nat
    decreases s.len(),
{
    if s.len() == 0 {
        0
    } else {
        number_value(s.drop_last()) * 10 + digit_value(s.last())
    }
}

/// A longer run of digits writes a number at least as large as any of its
/// beginnings.
pub proof fn lemma_number_value_grows(s: Seq<char>, n: int)
    requires
        0 <= n <= s.len(),
    ensures
        number_value(s.subrange(0, n)) <= number_value(s),
    decreases s.len() - n,
{
    if n < s.len() {
        lemma_number_value_grows(s, n + 1);
        let longer = s.subrange(0, n + 1);
        assert(longer.drop_last() =~= s.subrange(0, n));
    } else {
        assert(s.subrange(0, n) =~= s);
    }
}

/// The number that `s` writes, if it writes one that fits in 64 bits.
pub open spec fn parsed_number(s: Seq<char>) -> Option<u64> {
    if is_number(s) && number_value(s) <= u64::MAX {
        Some(number_value(s) as u64)
    } else {
        None
    }
}

/// Reads the number that `v` writes.
pub fn parse_number(v: &Vec<char>) -> (value: Option<u64>)
    ensures
        value == parsed_number(v@),
{
    let n = v.len();
    let first: usize = if n > 0 && v[0] == '+' {
        1
    } else {
        0
    };
    if first == n {
        return None;
    }
    let ghost digits = v@.subrange(first as int, n as int);
    let mut value: u64 = 0;
    let mut i: usize = first;
    proof {
        assert(v@.subrange(0, first as int).len() == first);
        if first == 1 {
            reveal_with_fuel(number_value, 2);
            assert(v@.subrange(0, 1).drop_last() =~= Seq::<char>::empty());
            assert(number_value(v@.subrange(0, 1)) == 0);
        } else {
            assert(number_value(v@.subrange(0, 0)) == 0);
        }
    }
    while i < n
        invariant
            first <= i <= n,
            n == v@.len(),
            first <= 1,
            first == 1 ==> v@[0] == '+',
            first == 0 ==> v@[0] != '+',
            value == number_value(v@.subrange(0, i as int)),
            forall|j: int| first <= j < i ==> is_digit(#[trigger] v@[j]),
        decreases n - i,
    {
        let c = v[i];
        if !('0' <= c && c <= '9') {
            proof {
                assert(!is_digit(c));
                if first == 1 {
                    let d = v@.subrange(1, n as int);
                    assert(d[i - 1] == c);
                    assert(!is_digit(d[i - 1]));
                } else {
                    assert(!is_digit(v@[i as int]));
                }
                assert(!is_number(v@));
            }
            return None;
        }
        let d: u64 = if c == '0' {
            0
        } else if c == '1' {
            1
        } else if c == '2' {
            2
        } else if c == '3' {
            3
        } else if c == '4' {
            4
        } else if c == '5' {
            5
        } else if c == '6' {
            6
        } else if c == '7' {
            7
        } else if c == '8' {
            8
        } else {
            9
        };
        proof {
            let longer = v@.subrange(0, i + 1);
            assert(longer.drop_last() =~= v@.subrange(0, i as int));
            assert(longer.last() == c);
            lemma_number_value_grows(v@, i + 1);
        }
        if value > (u64::MAX - d) / 10 {
            return None;
        }
        value = value * 10 + d;
        i += 1;
    }
    proof {
        assert(v@.subrange(0, n as int) =~= v@);
        if first == 1 {
            let d = v@.subrange(1, n as int);
            assert forall|j: int| 0 <= j < d.len() implies is_digit(#[trigger] d[j]) by {
                assert(d[j] == v@[j + 1]);
            }
        }
    }
    Some(value)
}

} // verus!
