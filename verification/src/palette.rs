//! Palettes: finite mappings from placeholder keys such as `$1` to colours.

use crate::color::Color;
use crate::text::string_of;
use vstd::prelude::*;

verus! {

broadcast use vstd::string::group_string_axioms;

/// A mapping from placeholder keys to colours. Every key occurs once.
#[derive(Debug)]
pub struct Palette {
    entries: Vec<(String, Color)>,
}

/// Whether some entry of `es` has the key `k`.
pub closed spec fn has_key(es: Seq<(String, Color)>, k: Seq<char>) -> bool {
    exists|i: int| 0 <= i < es.len() && (#[trigger] es[i]).0@ == k
}

/// The position of an entry of `es` with the key `k`.
pub closed spec fn position_of(es: Seq<(String, Color)>, k: Seq<char>) -> int {
    choose|i: int| 0 <= i < es.len() && (#[trigger] es[i]).0@ == k
}

/// Whether no key occurs twice in `es`.
pub closed spec fn distinct_keys(es: Seq<(String, Color)>) -> bool {
    forall|i: int, j: int|
        0 <= i < j < es.len() ==> (#[trigger] es[i]).0@ != (#[trigger] es[j]).0@
}

/// The mapping that the entries `es` stand for.
pub closed spec fn mapping_of(es: Seq<(String, Color)>) -> Map<Seq<char>, Color> {
    Map::new(|k: Seq<char>| has_key(es, k), |k: Seq<char>| es[position_of(es, k)].1)
}

proof fn lemma_mapping_at(es: Seq<(String, Color)>, i: int)
    requires
        distinct_keys(es),
        0 <= i < es.len(),
    ensures
        mapping_of(es).dom().contains(es[i].0@),
        mapping_of(es)[es[i].0@] == es[i].1,
{
    let k = es[i].0@;
    assert(has_key(es, k));
    let p = position_of(es, k);
    assert(0 <= p < es.len() && es[p].0@ == k);
    if p < i {
        assert(es[p].0@ != es[i].0@);
    }
    if i < p {
        assert(es[i].0@ != es[p].0@);
    }
}

proof fn lemma_mapping_push(es: Seq<(String, Color)>, e: (String, Color))
    requires
        distinct_keys(es),
        !has_key(es, e.0@),
    ensures
        distinct_keys(es.push(e)),
        mapping_of(es.push(e)) == mapping_of(es).insert(e.0@, e.1),
{
    let es2 = es.push(e);
    assert forall|i: int, j: int| 0 <= i < j < es2.len() implies (#[trigger] es2[i]).0@ != (
    #[trigger] es2[j]).0@ by {
        if j < es.len() {
            assert(es[i].0@ != es[j].0@);
        } else {
            if es[i].0@ == e.0@ {
                assert(has_key(es, e.0@));
            }
        }
    }
    assert forall|k: Seq<char>| has_key(es2, k) <==> (has_key(es, k) || k == e.0@) by {
        if has_key(es2, k) {
            let p = position_of(es2, k);
            assert(0 <= p < es2.len() && es2[p].0@ == k);
            if p < es.len() {
                assert(es[p].0@ == k);
            }
        }
        if has_key(es, k) {
            let p = position_of(es, k);
            assert(es2[p].0@ == k);
        }
        if k == e.0@ {
            assert(es2[es.len() as int].0@ == k);
        }
    }
    assert forall|k: Seq<char>| has_key(es2, k) implies #[trigger] mapping_of(es2)[k]
        == mapping_of(es).insert(e.0@, e.1)[k] by {
        let p = position_of(es2, k);
        assert(0 <= p < es2.len() && es2[p].0@ == k);
        lemma_mapping_at(es2, p);
        if p < es.len() {
            lemma_mapping_at(es, p);
            assert(es[p] == es2[p]);
        }
    }
    assert(mapping_of(es2) =~= mapping_of(es).insert(e.0@, e.1));
}

proof fn lemma_mapping_update(es: Seq<(String, Color)>, i: int, e: (String, Color))
    requires
        distinct_keys(es),
        0 <= i < es.len(),
        es[i].0@ == e.0@,
    ensures
        distinct_keys(es.update(i, e)),
        mapping_of(es.update(i, e)) == mapping_of(es).insert(e.0@, e.1),
{
    let es2 = es.update(i, e);
    assert forall|a: int, b: int| 0 <= a < b < es2.len() implies (#[trigger] es2[a]).0@ != (
    #[trigger] es2[b]).0@ by {
        assert(es[a].0@ != es[b].0@);
    }
    assert forall|k: Seq<char>| has_key(es2, k) <==> has_key(es, k) by {
        if has_key(es2, k) {
            let p = position_of(es2, k);
            assert(es[p].0@ == k);
        }
        if has_key(es, k) {
            let p = position_of(es, k);
            assert(es2[p].0@ == k);
        }
    }
    assert(has_key(es, e.0@)) by {
        assert(es[i].0@ == e.0@);
    }
    assert forall|k: Seq<char>| has_key(es2, k) implies #[trigger] mapping_of(es2)[k]
        == mapping_of(es).insert(e.0@, e.1)[k] by {
        let p = position_of(es2, k);
        assert(0 <= p < es2.len() && es2[p].0@ == k);
        lemma_mapping_at(es2, p);
        if p != i {
            lemma_mapping_at(es, p);
            if p < i {
                assert(es[p].0@ != es[i].0@);
            } else {
                assert(es[i].0@ != es[p].0@);
            }
        }
    }
    assert(mapping_of(es2) =~= mapping_of(es).insert(e.0@, e.1));
}

proof fn lemma_mapping_len(es: Seq<(String, Color)>)
    requires
        distinct_keys(es),
    ensures
        mapping_of(es).dom().finite(),
        mapping_of(es).dom().len() == es.len(),
    decreases es.len(),
{
    if es.len() == 0 {
        assert(mapping_of(es).dom() =~= Set::<Seq<char>>::empty()) by {
            assert forall|k: Seq<char>| !has_key(es, k) by {
                if has_key(es, k) {
                    let p = position_of(es, k);
                    assert(0 <= p < es.len());
                }
            }
        }
    } else {
        let front = es.drop_last();
        let e = es.last();
        assert(es =~= front.push(e));
        assert(distinct_keys(front)) by {
            assert forall|i: int, j: int| 0 <= i < j < front.len() implies (
            #[trigger] front[i]).0@ != (#[trigger] front[j]).0@ by {
                assert(es[i].0@ != es[j].0@);
            }
        }
        assert(!has_key(front, e.0@)) by {
            if has_key(front, e.0@) {
                let p = position_of(front, e.0@);
                assert(es[p].0@ != es[es.len() - 1].0@);
            }
        }
        lemma_mapping_len(front);
        lemma_mapping_push(front, e);
        assert(!mapping_of(front).dom().contains(e.0@));
        assert(mapping_of(es).dom() =~= mapping_of(front).dom().insert(e.0@));
    }
}

proof fn lemma_mapping_prefix(es: Seq<(String, Color)>, i: int)
    requires
        distinct_keys(es),
        0 <= i < es.len(),
    ensures
        distinct_keys(es.subrange(0, i)),
        distinct_keys(es.subrange(0, i + 1)),
        mapping_of(es.subrange(0, i + 1)) == mapping_of(es.subrange(0, i)).insert(
            es[i].0@,
            es[i].1,
        ),
{
    let front = es.subrange(0, i);
    assert(distinct_keys(front)) by {
        assert forall|a: int, b: int| 0 <= a < b < front.len() implies (#[trigger] front[a]).0@
            != (#[trigger] front[b]).0@ by {
            assert(es[a].0@ != es[b].0@);
        }
    }
    assert(!has_key(front, es[i].0@)) by {
        if has_key(front, es[i].0@) {
            let p = position_of(front, es[i].0@);
            assert(es[p].0@ != es[i].0@);
        }
    }
    lemma_mapping_push(front, es[i]);
    assert(es.subrange(0, i + 1) =~= front.push(es[i]));
}

impl View for Palette {
    type V = Map<Seq<char>, Color>;

    closed spec fn view(&self) -> Map<Seq<char>, Color> {
        mapping_of(self.entries@)
    }
}

impl Palette {
    #[verifier::type_invariant]
    closed spec fn well_formed(self) -> bool {
        distinct_keys(self.entries@)
    }

    /// The palette without any key.
    pub fn new() -> (p: Palette)
        ensures
            p@ == Map::<Seq<char>, Color>::empty(),
    {
        let p = Palette { entries: Vec::new() };
        proof {
            assert(distinct_keys(p.entries@));
            assert forall|k: Seq<char>| !has_key(p.entries@, k) by {
                if has_key(p.entries@, k) {
                    let i = position_of(p.entries@, k);
                    assert(0 <= i < p.entries@.len());
                }
            }
            assert(p@ =~= Map::<Seq<char>, Color>::empty());
        }
        p
    }

    /// The position of the entry with key `key`, if there is one.
    fn find_key(&self, key: &String) -> (found: Option<usize>)
        ensures
            match found {
                Some(i) => i < self.entries@.len() && self.entries@[i as int].0@ == key@,
                None => !has_key(self.entries@, key@),
            },
    {
        let mut i: usize = 0;
        while i < self.entries.len()
            invariant
                i <= self.entries@.len(),
                forall|j: int| 0 <= j < i ==> (#[trigger] self.entries@[j]).0@ != key@,
            decreases self.entries@.len() - i,
        {
            if self.entries[i].0 == *key {
                return Some(i);
            }
            i += 1;
        }
        proof {
            if has_key(self.entries@, key@) {
                let p = position_of(self.entries@, key@);
                assert(self.entries@[p].0@ != key@);
            }
        }
        None
    }

    /// The number of keys.
    pub fn len(&self) -> (n: usize)
        ensures
            self@.dom().finite(),
            n == self@.dom().len(),
    {
        proof {
            use_type_invariant(self);
            lemma_mapping_len(self.entries@);
        }
        self.entries.len()
    }

    /// Whether the palette has no key.
    pub fn is_empty(&self) -> (empty: bool)
        ensures
            empty == (self@ == Map::<Seq<char>, Color>::empty()),
    {
        let n = self.len();
        proof {
            if n == 0 {
                assert(self@.dom() =~= Set::<Seq<char>>::empty());
                assert(self@ =~= Map::<Seq<char>, Color>::empty());
            }
        }
        n == 0
    }

    /// Whether `key` has a colour.
    pub fn contains_key(&self, key: &str) -> (present: bool)
        ensures
            present == self@.dom().contains(key@),
    {
        let k = key.to_owned();
        self.find_key(&k).is_some()
    }

    /// The colour of `key`, if it has one.
    pub fn get(&self, key: &str) -> (color: Option<&Color>)
        ensures
            match color {
                Some(c) => self@.dom().contains(key@) && *c == self@[key@],
                None => !self@.dom().contains(key@),
            },
    {
        let k = key.to_owned();
        match self.find_key(&k) {
            Some(i) => {
                proof {
                    use_type_invariant(self);
                    lemma_mapping_at(self.entries@, i as int);
                }
                Some(&self.entries[i].1)
            },
            None => None,
        }
    }

    /// The colour of the key made of the characters `key`, if it has one.
    pub fn get_chars(&self, key: &Vec<char>) -> (color: Option<Color>)
        ensures
            color == (if self@.dom().contains(key@) {
                Some(self@[key@])
            } else {
                None
            }),
    {
        let k = string_of(key);
        match self.find_key(&k) {
            Some(i) => {
                proof {
                    use_type_invariant(self);
                    lemma_mapping_at(self.entries@, i as int);
                }
                Some(self.entries[i].1)
            },
            None => None,
        }
    }

    /// Gives `key` the colour `color`, whether or not it had one before.
    pub fn insert(&mut self, key: &str, color: Color)
        ensures
            final(self)@ == old(self)@.insert(key@, color),
    {
        let k = key.to_owned();
        let mut taken = Palette::new();
        core::mem::swap(self, &mut taken);
        proof {
            use_type_invariant(&taken);
        }
        let found = taken.find_key(&k);
        let Palette { entries } = taken;
        let mut entries = entries;
        match found {
            Some(i) => {
                proof {
                    lemma_mapping_update(entries@, i as int, (k, color));
                }
                entries.set(i, (k, color));
            },
            None => {
                proof {
                    lemma_mapping_push(entries@, (k, color));
                }
                entries.push((k, color));
            },
        }
        *self = Palette { entries };
    }

    /// Takes over every key of `overrides` with its colour; the other keys
    /// keep the colours they had.
    pub fn merge(&mut self, overrides: &Palette)
        ensures
            final(self)@ == old(self)@.union_prefer_right(overrides@),
    {
        let mut i: usize = 0;
        proof {
            use_type_invariant(overrides);
            assert(overrides.entries@.subrange(0, 0) =~= Seq::<(String, Color)>::empty());
            assert forall|k: Seq<char>| !has_key(overrides.entries@.subrange(0, 0), k) by {
                if has_key(overrides.entries@.subrange(0, 0), k) {
                    let p = position_of(overrides.entries@.subrange(0, 0), k);
                    assert(0 <= p < 0);
                }
            }
            assert(self@ =~= old(self)@.union_prefer_right(
                mapping_of(overrides.entries@.subrange(0, 0)),
            ));
        }
        while i < overrides.entries.len()
            invariant
                i <= overrides.entries@.len(),
                distinct_keys(overrides.entries@),
                self@ == old(self)@.union_prefer_right(
                    mapping_of(overrides.entries@.subrange(0, i as int)),
                ),
            decreases overrides.entries@.len() - i,
        {
            proof {
                lemma_mapping_prefix(overrides.entries@, i as int);
            }
            let ghost before = self@;
            let ghost part = mapping_of(overrides.entries@.subrange(0, i as int));
            self.insert(overrides.entries[i].0.as_str(), overrides.entries[i].1);
            proof {
                let e = overrides.entries@[i as int];
                assert(self@ =~= old(self)@.union_prefer_right(part.insert(e.0@, e.1)));
            }
            i += 1;
        }
        proof {
            assert(overrides.entries@.subrange(0, i as int) =~= overrides.entries@);
        }
    }

    /// Whether both palettes give the same colours to the same keys.
    pub fn same_as(&self, other: &Palette) -> (same: bool)
        ensures
            same == (self@ == other@),
    {
        proof {
            use_type_invariant(self);
            use_type_invariant(other);
            lemma_mapping_len(self.entries@);
            lemma_mapping_len(other.entries@);
        }
        if self.entries.len() != other.entries.len() {
            return false;
        }
        let mut i: usize = 0;
        while i < self.entries.len()
            invariant
                i <= self.entries@.len(),
                distinct_keys(self.entries@),
                distinct_keys(other.entries@),
                forall|j: int|
                    0 <= j < i ==> other@.dom().contains((#[trigger] self.entries@[j]).0@)
                        && other@[self.entries@[j].0@] == self.entries@[j].1,
            decreases self.entries@.len() - i,
        {
            proof {
                lemma_mapping_at(self.entries@, i as int);
            }
            match other.find_key(&self.entries[i].0) {
                Some(p) => {
                    proof {
                        lemma_mapping_at(other.entries@, p as int);
                    }
                    if other.entries[p].1 != self.entries[i].1 {
                        return false;
                    }
                },
                None => {
                    return false;
                },
            }
            i += 1;
        }
        proof {
            assert forall|k: Seq<char>| self@.dom().contains(k) implies other@.dom().contains(k)
                && other@[k] == self@[k] by {
                let p = position_of(self.entries@, k);
                assert(0 <= p < self.entries@.len() && self.entries@[p].0@ == k);
                lemma_mapping_at(self.entries@, p);
            }
            assert(self@.dom().subset_of(other@.dom()));
            vstd::set_lib::lemma_subset_equality(self@.dom(), other@.dom());
            assert(self@ =~= other@);
        }
        true
    }

    /// A palette with the same keys and colours.
    pub fn duplicate(&self) -> (copy: Palette)
        ensures
            copy@ == self@,
    {
        let mut copy = Palette::new();
        copy.merge(self);
        proof {
            assert(copy@ =~= self@);
        }
        copy
    }
}

impl PartialEq for Palette {
    fn eq(&self, other: &Palette) -> (same: bool) {
        self.same_as(other)
    }
}

impl vstd::std_specs::cmp::PartialEqSpecImpl for Palette {
    open spec fn obeys_eq_spec() -> bool {
        true
    }

    open spec fn eq_spec(&self, other: &Palette) -> bool {
        self@ == other@
    }
}

impl Clone for Palette {
    fn clone(&self) -> (copy: Palette)
        ensures
            copy@ == self@,
    {
        self.duplicate()
    }
}

} // verus!
