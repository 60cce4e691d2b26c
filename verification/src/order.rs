//! The order of texts: character by character, a shorter text before its
//! continuations. This is the order in which names are listed.

use vstd::prelude::*;

verus! {

/// Whether `a` comes before `b` by what stands at position `k`: both agree
/// before `k`, and there `a` ends while `b` goes on, or `a` has the lesser
/// character.
pub open spec fn decided_at(a: Seq<char>, b: Seq<char>, k: int) -> bool {
    &&& 0 <= k <= a.len()
    &&& k < b.len()
    &&& forall|j: int| 0 <= j < k ==> a[j] == b[j]
    &&& (k == a.len() || a[k] < b[k])
}

/// Whether `a` comes strictly before `b`.
pub open spec fn precedes(a: Seq<char>, b: Seq<char>) -> bool {
    exists|k: int| decided_at(a, b, k)
}

/// No text comes before itself.
pub proof fn lemma_precedes_irreflexive(a: Seq<char>)
    ensures
        !precedes(a, a),
{
    if precedes(a, a) {
        let k = choose|k: int| decided_at(a, a, k);
        assert(decided_at(a, a, k));
    }
}

/// What comes before a text comes before everything behind that text.
pub proof fn lemma_precedes_transitive(a: Seq<char>, b: Seq<char>, c: Seq<char>)
    requires
        precedes(a, b),
        precedes(b, c),
    ensures
        precedes(a, c),
{
    let k1 = choose|k: int| decided_at(a, b, k);
    let k2 = choose|k: int| decided_at(b, c, k);
    assert(decided_at(a, b, k1));
    assert(decided_at(b, c, k2));
    if k1 <= k2 {
        assert(decided_at(a, c, k1)) by {
            if k1 < k2 {
                assert(b[k1] == c[k1]);
            }
        }
    } else {
        assert(decided_at(a, c, k2)) by {
            assert(a[k2] == b[k2]);
        }
    }
}

/// Of two texts, the one before the other is not behind it.
pub proof fn lemma_precedes_asymmetric(a: Seq<char>, b: Seq<char>)
    requires
        precedes(a, b),
    ensures
        !precedes(b, a),
        a != b,
{
    if precedes(b, a) {
        lemma_precedes_transitive(a, b, a);
        lemma_precedes_irreflexive(a);
    }
    if a == b {
        lemma_precedes_irreflexive(a);
    }
}

/// How one text stands to another.
#[derive(Clone, Copy, Debug, PartialEq, Eq, Structural)]
pub enum Place {
    Before,
    Same,
    After,
}

/// How `a` stands to `b`.
pub open spec fn place_of(a: Seq<char>, b: Seq<char>) -> Place {
    if a == b {
        Place::Same
    } else if precedes(a, b) {
        Place::Before
    } else {
        Place::After
    }
}

/// Finds how `a` stands to `b`. Of two different texts one comes before
/// the other.
pub fn place(a: &Vec<char>, b: &Vec<char>) -> (found: Place)
    ensures
        found == place_of(a@, b@),
        found == Place::After ==> precedes(b@, a@),
{
    let mut k: usize = 0;
    while k < a.len() && k < b.len()
        invariant
            k <= a@.len(),
            k <= b@.len(),
            forall|j: int| 0 <= j < k ==> a@[j] == b@[j],
        decreases a@.len() - k,
    {
        if a[k] < b[k] {
            proof {
                assert(decided_at(a@, b@, k as int));
                lemma_precedes_asymmetric(a@, b@);
            }
            return Place::Before;
        }
        if b[k] < a[k] {
            proof {
                assert(decided_at(b@, a@, k as int));
                lemma_precedes_asymmetric(b@, a@);
            }
            return Place::After;
        }
        k += 1;
    }
    if k < b.len() {
        proof {
            assert(decided_at(a@, b@, k as int));
            lemma_precedes_asymmetric(a@, b@);
        }
        Place::Before
    } else if k < a.len() {
        proof {
            assert(decided_at(b@, a@, k as int));
            lemma_precedes_asymmetric(b@, a@);
        }
        Place::After
    } else {
        proof {
            assert(a@ =~= b@);
        }
        Place::Same
    }
}

} // verus!
