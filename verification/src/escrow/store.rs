//! The order store: one record per order id, scanned by ascending id.

use vstd::prelude::*;
use crate::bytes::{comes_before, lemma_precedes_irreflexive, lemma_precedes_total, lemma_precedes_transitive, precedes, same_bytes};
use crate::escrow::order::Order;

verus! {

/// The ids of `s` go up strictly in dictionary order.
pub open spec fn ascending(s: Seq<Order>) -> bool {
    forall|i: int, j: int| 0 <= i < j < s.len() ==> precedes(#[trigger] s[i].id@, #[trigger] s[j].id@)
}

/// `s` lists, by ascending id, exactly the records of `m` that `keep` picks.
pub open spec fn selects(s: Seq<Order>, m: Map<Seq<u8>, Order>, keep: spec_fn(Order) -> bool) -> bool {
    &&& ascending(s)
    &&& forall|i: int|
        0 <= i < s.len() ==> m.contains_key(#[trigger] s[i].id@) && m[s[i].id@] == s[i] && keep(
            s[i],
        )
    &&& forall|id: Seq<u8>|
        #[trigger] m.contains_key(id) && keep(m[id]) ==> exists|i: int|
            0 <= i < s.len() && #[trigger] s[i].id@ == id
}

/// `s` lists, by ascending id, exactly the records of `m`.
pub open spec fn lists(s: Seq<Order>, m: Map<Seq<u8>, Order>) -> bool {
    selects(s, m, |o: Order| true)
}

/// Every record of `m` is filed under its own id.
pub open spec fn keyed_by_id(m: Map<Seq<u8>, Order>) -> bool {
    forall|id: Seq<u8>| #[trigger] m.contains_key(id) ==> m[id].id@ == id
}

spec fn holds(s: Seq<Order>, id: Seq<u8>) -> bool {
    exists|i: int| 0 <= i < s.len() && #[trigger] s[i].id@ == id
}

spec fn place(s: Seq<Order>, id: Seq<u8>) -> int {
    choose|i: int| 0 <= i < s.len() && #[trigger] s[i].id@ == id
}

spec fn as_map(s: Seq<Order>) -> Map<Seq<u8>, Order> {
    Map::new(|id: Seq<u8>| holds(s, id), |id: Seq<u8>| s[place(s, id)])
}

proof fn lemma_place(s: Seq<Order>, i: int)
    requires
        ascending(s),
        0 <= i < s.len(),
    ensures
        holds(s, s[i].id@),
        place(s, s[i].id@) == i,
        as_map(s).contains_key(s[i].id@),
        as_map(s)[s[i].id@] == s[i],
{
    let p = place(s, s[i].id@);
    lemma_precedes_irreflexive(s[i].id@);
    if p < i {
        assert(precedes(s[p].id@, s[i].id@));
    } else if i < p {
        assert(precedes(s[i].id@, s[p].id@));
    }
}

proof fn lemma_lists(s: Seq<Order>)
    requires
        ascending(s),
    ensures
        lists(s, as_map(s)),
        keyed_by_id(as_map(s)),
        as_map(s).dom().finite(),
{
    assert forall|i: int| 0 <= i < s.len() implies as_map(s).contains_key(#[trigger] s[i].id@)
        && as_map(s)[s[i].id@] == s[i] by {
        lemma_place(s, i);
    }
    let ids = Set::new(|id: Seq<u8>| holds(s, id));
    assert(as_map(s).dom() =~= ids);
    lemma_ids_finite(s);
}

proof fn lemma_ids_finite(s: Seq<Order>)
    ensures
        Set::new(|id: Seq<u8>| holds(s, id)).finite(),
    decreases s.len(),
{
    let ids = Set::new(|id: Seq<u8>| holds(s, id));
    if s.len() == 0 {
        assert(ids =~= Set::empty());
    } else {
        let t = s.drop_last();
        lemma_ids_finite(t);
        let rest = Set::new(|id: Seq<u8>| holds(t, id));
        assert forall|id: Seq<u8>| ids.contains(id) <==> rest.insert(s.last().id@).contains(
            id,
        ) by {
            if holds(s, id) {
                let i = place(s, id);
                if i < s.len() - 1 {
                    assert(t[i].id@ == id);
                }
            }
            if holds(t, id) {
                let i = place(t, id);
                assert(s[i].id@ == id);
            }
            if id == s.last().id@ {
                assert(s[s.len() - 1].id@ == id);
            }
        }
        assert(ids =~= rest.insert(s.last().id@));
    }
}

/// Filing a record under an id that `s` does not hold yet.
proof fn lemma_insert(s: Seq<Order>, at: int, o: Order)
    requires
        ascending(s),
        0 <= at <= s.len(),
        forall|i: int| 0 <= i < at ==> precedes(#[trigger] s[i].id@, o.id@),
        forall|i: int| at <= i < s.len() ==> precedes(o.id@, #[trigger] s[i].id@),
    ensures
        ascending(s.insert(at, o)),
        as_map(s.insert(at, o)) == as_map(s).insert(o.id@, o),
{
    let t = s.insert(at, o);
    assert forall|i: int, j: int| 0 <= i < j < t.len() implies precedes(
        #[trigger] t[i].id@,
        #[trigger] t[j].id@,
    ) by {
        if j < at {
            assert(t[i] == s[i] && t[j] == s[j]);
        } else if j == at {
            assert(t[i] == s[i]);
        } else if i < at {
            assert(t[i] == s[i] && t[j] == s[j - 1]);
        } else if i == at {
            assert(t[j] == s[j - 1]);
        } else {
            assert(t[i] == s[i - 1] && t[j] == s[j - 1]);
        }
    }
    assert forall|id: Seq<u8>| #[trigger]
        as_map(t).contains_key(id) == as_map(s).insert(o.id@, o).contains_key(id) && (as_map(
            t,
        ).contains_key(id) ==> as_map(t)[id] == as_map(s).insert(o.id@, o)[id]) by {
        if holds(s, id) {
            let i = place(s, id);
            lemma_place(s, i);
            let k = if i < at {
                i
            } else {
                i + 1
            };
            assert(t[k] == s[i]);
            lemma_place(t, k);
            lemma_precedes_irreflexive(id);
        }
        if id == o.id@ {
            assert(t[at] == o);
            lemma_place(t, at);
        }
        if holds(t, id) {
            let k = place(t, id);
            lemma_place(t, k);
            if k < at {
                assert(s[k] == t[k]);
                lemma_place(s, k);
            } else if k > at {
                assert(s[k - 1] == t[k]);
                lemma_place(s, k - 1);
            }
        }
    }
    assert(as_map(t) =~= as_map(s).insert(o.id@, o));
}

/// Replacing the record that `s` holds under an id.
proof fn lemma_update(s: Seq<Order>, at: int, o: Order)
    requires
        ascending(s),
        0 <= at < s.len(),
        s[at].id@ == o.id@,
    ensures
        ascending(s.update(at, o)),
        as_map(s.update(at, o)) == as_map(s).insert(o.id@, o),
{
    let t = s.update(at, o);
    assert forall|i: int, j: int| 0 <= i < j < t.len() implies precedes(
        #[trigger] t[i].id@,
        #[trigger] t[j].id@,
    ) by {
        assert(t[i].id@ == s[i].id@ && t[j].id@ == s[j].id@);
    }
    assert forall|id: Seq<u8>| #[trigger]
        as_map(t).contains_key(id) == as_map(s).insert(o.id@, o).contains_key(id) && (as_map(
            t,
        ).contains_key(id) ==> as_map(t)[id] == as_map(s).insert(o.id@, o)[id]) by {
        if holds(s, id) {
            let i = place(s, id);
            lemma_place(s, i);
            assert(t[i].id@ == id);
            lemma_place(t, i);
        }
        if holds(t, id) {
            let k = place(t, id);
            lemma_place(t, k);
            assert(s[k].id@ == id);
            lemma_place(s, k);
        }
    }
    assert(as_map(t) =~= as_map(s).insert(o.id@, o));
}

/// The system of record: at most one order for each id.
pub struct OrderStore {
    orders: Vec<Order>,
}

impl View for OrderStore {
    type V = Map<Seq<u8>, Order>;

    /// The stored record of each id that has one.
    closed spec fn view(&self) -> Map<Seq<u8>, Order> {
        as_map(self.orders@)
    }
}

impl OrderStore {
    #[verifier::type_invariant]
    spec fn sorted(&self) -> bool {
        ascending(self.orders@)
    }

    /// A store without records.
    pub fn new() -> (store: OrderStore)
        ensures
            store@ == Map::<Seq<u8>, Order>::empty(),
    {
        let store = OrderStore { orders: Vec::new() };
        assert(store@ =~= Map::<Seq<u8>, Order>::empty());
        store
    }

    /// Where the record of `id` stands, or would stand, and whether it is
    /// there.
    fn locate(&self, id: &[u8; 32]) -> (r: (usize, bool))
        ensures
            r.0 <= self.orders@.len(),
            r.1 ==> r.0 < self.orders@.len() && self.orders@[r.0 as int].id@ == id@,
            r.1 == holds(self.orders@, id@),
            forall|i: int| 0 <= i < r.0 ==> precedes(#[trigger] self.orders@[i].id@, id@),
            forall|i: int|
                r.0 <= i < self.orders@.len() && !(r.1 && i == r.0) ==> precedes(
                    id@,
                    #[trigger] self.orders@[i].id@,
                ),
    {
        proof {
            use_type_invariant(self);
        }
        let mut at: usize = 0;
        while at < self.orders.len()
            invariant
                at <= self.orders@.len(),
                ascending(self.orders@),
                forall|i: int| 0 <= i < at ==> precedes(#[trigger] self.orders@[i].id@, id@),
            decreases self.orders@.len() - at,
        {
            let here = &self.orders[at].id;
            if !comes_before(here, id) {
                let found = same_bytes(here, id);
                proof {
                    let s = self.orders@;
                    if !found {
                        lemma_precedes_total(id@, s[at as int].id@);
                    }
                    assert forall|i: int| at <= i < s.len() && !(found && i == at) implies precedes(
                        id@,
                        #[trigger] s[i].id@,
                    ) by {
                        if i > at {
                            assert(precedes(s[at as int].id@, s[i].id@));
                            if !found {
                                lemma_precedes_transitive(id@, s[at as int].id@, s[i].id@);
                            }
                        }
                    }
                    if !found && holds(s, id@) {
                        let p = place(s, id@);
                        lemma_precedes_irreflexive(id@);
                    }
                }
                return (at, found);
            }
            at += 1;
        }
        proof {
            let s = self.orders@;
            if holds(s, id@) {
                let p = place(s, id@);
                lemma_precedes_irreflexive(id@);
            }
        }
        (at, false)
    }

    /// Whether the store has a record for `id`.
    pub fn contains(&self, id: &[u8; 32]) -> (r: bool)
        ensures
            r == self@.contains_key(id@),
    {
        self.locate(id).1
    }

    /// The record stored for `id`, if there is one.
    pub fn get(&self, id: &[u8; 32]) -> (r: Option<Order>)
        ensures
            r == (if self@.contains_key(id@) {
                Some(self@[id@])
            } else {
                None
            }),
    {
        let (at, found) = self.locate(id);
        if found {
            proof {
                use_type_invariant(self);
                lemma_place(self.orders@, at as int);
            }
            Some(self.orders[at])
        } else {
            None
        }
    }

    /// Files `order` under its id, in place of the record that was there.
    pub fn put(&mut self, order: Order)
        ensures
            final(self)@ == old(self)@.insert(order.id@, order),
    {
        let (at, found) = self.locate(&order.id);
        proof {
            use_type_invariant(&*self);
            if found {
                lemma_update(self.orders@, at as int, order);
            } else {
                lemma_insert(self.orders@, at as int, order);
            }
        }
        let mut orders: Vec<Order> = Vec::new();
        std::mem::swap(&mut orders, &mut self.orders);
        if found {
            orders[at] = order;
        } else {
            orders.insert(at, order);
        }
        self.orders = orders;
    }

    /// Every record, by ascending id.
    pub fn scan(&self) -> (r: &Vec<Order>)
        ensures
            lists(r@, self@),
    {
        proof {
            use_type_invariant(self);
            lemma_lists(self.orders@);
        }
        &self.orders
    }

    /// How many records the store holds.
    pub fn len(&self) -> (n: usize)
        ensures
            self@.dom().finite(),
            n == self@.dom().len(),
    {
        proof {
            use_type_invariant(self);
            lemma_lists(self.orders@);
            lemma_count(self.orders@);
        }
        self.orders.len()
    }

    /// Every record is filed under its own id, and there are finitely many.
    pub proof fn lemma_keyed(&self)
        ensures
            keyed_by_id(self@),
            self@.dom().finite(),
    {
        assert forall|id: Seq<u8>| #[trigger] self@.contains_key(id) implies self@[id].id@ == id by {
        }
        lemma_ids_finite(self.orders@);
        assert(self@.dom() =~= Set::new(|id: Seq<u8>| holds(self.orders@, id)));
    }
}

proof fn lemma_count(s: Seq<Order>)
    requires
        ascending(s),
    ensures
        as_map(s).dom().finite(),
        as_map(s).dom().len() == s.len(),
    decreases s.len(),
{
    lemma_lists(s);
    if s.len() == 0 {
        assert(as_map(s).dom() =~= Set::empty());
    } else {
        let t = s.drop_last();
        assert(ascending(t)) by {
            assert forall|i: int, j: int| 0 <= i < j < t.len() implies precedes(
                #[trigger] t[i].id@,
                #[trigger] t[j].id@,
            ) by {
                assert(t[i] == s[i] && t[j] == s[j]);
            }
        }
        lemma_count(t);
        assert forall|i: int| 0 <= i < t.len() implies precedes(#[trigger] t[i].id@, s.last().id@) by {
            assert(t[i] == s[i]);
        }
        lemma_insert(t, t.len() as int, s.last());
        assert(t.insert(t.len() as int, s.last()) =~= s);
        assert(!as_map(t).contains_key(s.last().id@)) by {
            if holds(t, s.last().id@) {
                let p = place(t, s.last().id@);
                lemma_precedes_irreflexive(s.last().id@);
            }
        }
        assert(as_map(s).dom() =~= as_map(t).dom().insert(s.last().id@));
    }
}

} // verus!
