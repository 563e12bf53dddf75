//! A table with one entry for each principal that has one.

use vstd::prelude::*;
use crate::identity::Address;

verus! {

/// No two entries of `s` belong to one principal.
pub open spec fn one_each<V>(s: Seq<(Address, V)>) -> bool {
    forall|i: int, j: int|
        0 <= i < s.len() && 0 <= j < s.len() && (#[trigger] s[i]).0 == (#[trigger] s[j]).0 ==> i
            == j
}

/// `s` holds exactly the entries of `m`, each once.
pub open spec fn lists_all<V>(s: Seq<(Address, V)>, m: Map<Address, V>) -> bool {
    &&& one_each(s)
    &&& forall|i: int|
        0 <= i < s.len() ==> m.contains_key((#[trigger] s[i]).0) && m[s[i].0] == s[i].1
    &&& forall|a: Address| #[trigger]
        m.contains_key(a) ==> exists|i: int| 0 <= i < s.len() && (#[trigger] s[i]).0 == a
}

spec fn present<V>(s: Seq<(Address, V)>, a: Address) -> bool {
    exists|i: int| 0 <= i < s.len() && (#[trigger] s[i]).0 == a
}

spec fn slot<V>(s: Seq<(Address, V)>, a: Address) -> int {
    choose|i: int| 0 <= i < s.len() && (#[trigger] s[i]).0 == a
}

spec fn table<V>(s: Seq<(Address, V)>) -> Map<Address, V> {
    Map::new(|a: Address| present(s, a), |a: Address| s[slot(s, a)].1)
}

proof fn lemma_slot<V>(s: Seq<(Address, V)>, i: int)
    requires
        one_each(s),
        0 <= i < s.len(),
    ensures
        present(s, s[i].0),
        slot(s, s[i].0) == i,
        table(s).contains_key(s[i].0),
        table(s)[s[i].0] == s[i].1,
{
    let p = slot(s, s[i].0);
    assert(s[p].0 == s[i].0);
}

proof fn lemma_push<V>(s: Seq<(Address, V)>, a: Address, v: V)
    requires
        one_each(s),
        !present(s, a),
    ensures
        one_each(s.push((a, v))),
        table(s.push((a, v))) == table(s).insert(a, v),
{
    let t = s.push((a, v));
    assert forall|i: int, j: int|
        0 <= i < t.len() && 0 <= j < t.len() && (#[trigger] t[i]).0 == (#[trigger] t[j]).0 implies i
        == j by {
        if i < s.len() {
            assert(t[i] == s[i]);
        }
        if j < s.len() {
            assert(t[j] == s[j]);
        }
    }
    assert forall|b: Address| #[trigger]
        table(t).contains_key(b) == table(s).insert(a, v).contains_key(b) && (table(t).contains_key(
            b,
        ) ==> table(t)[b] == table(s).insert(a, v)[b]) by {
        if present(s, b) {
            let i = slot(s, b);
            assert(t[i] == s[i]);
            lemma_slot(t, i);
            lemma_slot(s, i);
        }
        if b == a {
            assert(t[s.len() as int] == (a, v));
            lemma_slot(t, s.len() as int);
        }
        if present(t, b) {
            let k = slot(t, b);
            if k < s.len() {
                assert(s[k] == t[k]);
            }
        }
    }
    assert(table(t) =~= table(s).insert(a, v));
}

proof fn lemma_replace<V>(s: Seq<(Address, V)>, at: int, v: V)
    requires
        one_each(s),
        0 <= at < s.len(),
    ensures
        one_each(s.update(at, (s[at].0, v))),
        table(s.update(at, (s[at].0, v))) == table(s).insert(s[at].0, v),
{
    let a = s[at].0;
    let t = s.update(at, (a, v));
    assert forall|i: int, j: int|
        0 <= i < t.len() && 0 <= j < t.len() && (#[trigger] t[i]).0 == (#[trigger] t[j]).0 implies i
        == j by {
        assert(t[i].0 == s[i].0 && t[j].0 == s[j].0);
    }
    assert forall|b: Address| #[trigger]
        table(t).contains_key(b) == table(s).insert(a, v).contains_key(b) && (table(t).contains_key(
            b,
        ) ==> table(t)[b] == table(s).insert(a, v)[b]) by {
        if present(s, b) {
            let i = slot(s, b);
            assert(t[i].0 == b);
            lemma_slot(t, i);
            lemma_slot(s, i);
        }
        if present(t, b) {
            let k = slot(t, b);
            assert(s[k].0 == b);
        }
    }
    assert(table(t) =~= table(s).insert(a, v));
}

/// A table keyed by principal: at most one entry each.
pub struct AddressMap<V> {
    entries: Vec<(Address, V)>,
}

impl<V> View for AddressMap<V> {
    type V = Map<Address, V>;

    /// The entry of each principal that has one.
    closed spec fn view(&self) -> Map<Address, V> {
        table(self.entries@)
    }
}

impl<V> AddressMap<V> {
    #[verifier::type_invariant]
    spec fn distinct(&self) -> bool {
        one_each(self.entries@)
    }

    /// A table without entries.
    pub fn new() -> (map: AddressMap<V>)
        ensures
            map@ == Map::<Address, V>::empty(),
    {
        let map = AddressMap { entries: Vec::new() };
        assert(map@ =~= Map::<Address, V>::empty());
        map
    }

    /// Where the entry of `who` stands, if there is one.
    fn find(&self, who: &Address) -> (r: Option<usize>)
        ensures
            r is Some == present(self.entries@, *who),
            r matches Some(at) ==> at < self.entries@.len() && self.entries@[at as int].0 == *who,
    {
        let mut at: usize = 0;
        while at < self.entries.len()
            invariant
                at <= self.entries@.len(),
                forall|i: int| 0 <= i < at ==> (#[trigger] self.entries@[i]).0 != *who,
            decreases self.entries@.len() - at,
        {
            if self.entries[at].0.same(who) {
                return Some(at);
            }
            at += 1;
        }
        None
    }

    /// Whether `who` has an entry.
    pub fn contains_key(&self, who: &Address) -> (r: bool)
        ensures
            r == self@.contains_key(*who),
    {
        self.find(who).is_some()
    }

    /// The entry of `who`, if there is one.
    pub fn get(&self, who: &Address) -> (r: Option<&V>)
        ensures
            r is Some == self@.contains_key(*who),
            r matches Some(v) ==> *v == self@[*who],
    {
        match self.find(who) {
            Some(at) => {
                proof {
                    use_type_invariant(self);
                    lemma_slot(self.entries@, at as int);
                }
                Some(&self.entries[at].1)
            },
            None => None,
        }
    }

    /// Makes `value` the entry of `who`, in place of the one that was there.
    pub fn set(&mut self, who: Address, value: V)
        ensures
            final(self)@ == old(self)@.insert(who, value),
    {
        let found = self.find(&who);
        proof {
            use_type_invariant(&*self);
        }
        let mut entries: Vec<(Address, V)> = Vec::new();
        std::mem::swap(&mut entries, &mut self.entries);
        match found {
            Some(at) => {
                proof {
                    lemma_replace(entries@, at as int, value);
                }
                entries[at] = (who, value);
            },
            None => {
                proof {
                    lemma_push(entries@, who, value);
                }
                entries.push((who, value));
            },
        }
        self.entries = entries;
    }

    /// Every entry with its principal, in no particular order.
    pub fn entries(&self) -> (r: &Vec<(Address, V)>)
        ensures
            lists_all(r@, self@),
    {
        proof {
            use_type_invariant(self);
            assert forall|i: int| 0 <= i < self.entries@.len() implies self@.contains_key(
                (#[trigger] self.entries@[i]).0,
            ) && self@[self.entries@[i].0] == self.entries@[i].1 by {
                lemma_slot(self.entries@, i);
            }
        }
        &self.entries
    }
}

} // verus!
