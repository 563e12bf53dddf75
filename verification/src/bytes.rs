//! Fixed-width byte strings: equality and dictionary order.

use vstd::prelude::*;

verus! {

/// `a` comes before `b` in dictionary order. Meant for strings of one length.
pub open spec fn precedes(a: Seq<u8>, b: Seq<u8>) -> bool {
    exists|k: int|
        0 <= k < a.len() && k < b.len() && a[k] < b[k] && (forall|j: int|
            0 <= j < k ==> a[j] == b[j])
}

/// Nothing comes before itself.
pub proof fn lemma_precedes_irreflexive(a: Seq<u8>)
    ensures
        !precedes(a, a),
{
}

/// Dictionary order is transitive.
pub proof fn lemma_precedes_transitive(a: Seq<u8>, b: Seq<u8>, c: Seq<u8>)
    requires
        precedes(a, b),
        precedes(b, c),
    ensures
        precedes(a, c),
{
    let k1 = choose|k: int|
        0 <= k < a.len() && k < b.len() && a[k] < b[k] && (forall|j: int|
            0 <= j < k ==> a[j] == b[j]);
    let k2 = choose|k: int|
        0 <= k < b.len() && k < c.len() && b[k] < c[k] && (forall|j: int|
            0 <= j < k ==> b[j] == c[j]);
    let k = if k1 <= k2 {
        k1
    } else {
        k2
    };
    assert(0 <= k < a.len() && k < c.len() && a[k] < c[k] && (forall|j: int|
        0 <= j < k ==> a[j] == c[j]));
}

/// Of two different strings of one length, one comes before the other.
pub proof fn lemma_precedes_total(a: Seq<u8>, b: Seq<u8>)
    requires
        a.len() == b.len(),
        a != b,
    ensures
        precedes(a, b) || precedes(b, a),
{
    let k = first_gap(a, b, 0);
    lemma_first_gap(a, b, 0);
    if k == a.len() {
        assert(a =~= b);
    } else if a[k] < b[k] {
        assert(0 <= k < a.len() && k < b.len() && a[k] < b[k] && (forall|j: int|
            0 <= j < k ==> a[j] == b[j]));
    } else {
        assert(0 <= k < b.len() && k < a.len() && b[k] < a[k] && (forall|j: int|
            0 <= j < k ==> b[j] == a[j]));
    }
}

/// The first position at or after `from` where `a` and `b` differ, or the
/// length of `a` where they agree to the end.
spec fn first_gap(a: Seq<u8>, b: Seq<u8>, from: int) -> int
    decreases a.len() - from,
{
    if from < 0 || from >= a.len() || from >= b.len() || a[from] != b[from] {
        if 0 <= from <= a.len() {
            from
        } else {
            a.len() as int
        }
    } else {
        first_gap(a, b, from + 1)
    }
}

proof fn lemma_first_gap(a: Seq<u8>, b: Seq<u8>, from: int)
    requires
        a.len() == b.len(),
        0 <= from <= a.len(),
    ensures
        from <= first_gap(a, b, from) <= a.len(),
        forall|j: int| from <= j < first_gap(a, b, from) ==> a[j] == b[j],
        first_gap(a, b, from) < a.len() ==> a[first_gap(a, b, from)] != b[first_gap(a, b, from)],
    decreases a.len() - from,
{
    if from < a.len() && a[from] == b[from] {
        lemma_first_gap(a, b, from + 1);
    }
}

/// The first index at which two 32-byte strings differ, or 32 where they are
/// the same string.
pub fn first_difference(a: &[u8; 32], b: &[u8; 32]) -> (k: usize)
    ensures
        k <= 32,
        forall|j: int| 0 <= j < k ==> a@[j] == b@[j],
        k < 32 ==> a@[k as int] != b@[k as int],
{
    let mut k: usize = 0;
    while k < 32
        invariant
            k <= 32,
            forall|j: int| 0 <= j < k ==> a@[j] == b@[j],
        decreases 32 - k,
    {
        if a[k] != b[k] {
            return k;
        }
        k += 1;
    }
    k
}

/// Whether two 32-byte strings hold the same bytes.
pub fn same_bytes(a: &[u8; 32], b: &[u8; 32]) -> (r: bool)
    ensures
        r == (a@ == b@),
        r == (*a == *b),
{
    let k = first_difference(a, b);
    proof {
        if k == 32 {
            assert(a@ =~= b@);
            assert(*a =~= *b);
        }
    }
    k == 32
}

/// Whether `a` comes before `b` in dictionary order.
pub fn comes_before(a: &[u8; 32], b: &[u8; 32]) -> (r: bool)
    ensures
        r == precedes(a@, b@),
{
    let k = first_difference(a, b);
    if k < 32 {
        let r = a[k] < b[k];
        proof {
            if r {
                assert(0 <= k < a@.len() && k < b@.len() && a@[k as int] < b@[k as int] && (
                forall|j: int| 0 <= j < k ==> a@[j] == b@[j]));
            } else {
                assert forall|m: int|
                    !(0 <= m < a@.len() && m < b@.len() && a@[m] < b@[m] && (forall|j: int|
                        0 <= j < m ==> a@[j] == b@[j])) by {
                    if 0 <= m < 32 && m > k {
                        assert(a@[k as int] != b@[k as int]);
                    }
                }
            }
        }
        r
    } else {
        proof {
            assert(a@ =~= b@);
            lemma_precedes_irreflexive(a@);
        }
        false
    }
}

} // verus!
