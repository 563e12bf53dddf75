//! The engine: the order store, the event log and the operations on them.

use vstd::prelude::*;
use crate::call::Invocation;
use crate::identity::Address;
use crate::escrow::event::EscrowEvent;
use crate::escrow::order::{EscrowError, Order, OrderStatus};
use crate::escrow::rules::{
    create_result, create_state, transition_result, transition_state, EscrowState, Transition,
};
use crate::bytes::precedes;
use crate::escrow::store::{keyed_by_id, selects, OrderStore};

verus! {

/// The escrow of a marketplace: it owns the order store and is the only one
/// to write to it. Every operation either commits as a whole, and then logs
/// what it did, or is rejected and changes nothing.
pub struct EscrowContract {
    store: OrderStore,
    log: Vec<EscrowEvent>,
}

impl View for EscrowContract {
    type V = EscrowState;

    closed spec fn view(&self) -> EscrowState {
        EscrowState { orders: self.store@, events: self.log@ }
    }
}

impl EscrowContract {
    /// An escrow without orders.
    pub fn new() -> (escrow: EscrowContract)
        ensures
            escrow@.orders == Map::<Seq<u8>, Order>::empty(),
            escrow@.events == Seq::<EscrowEvent>::empty(),
    {
        EscrowContract { store: OrderStore::new(), log: Vec::new() }
    }

    /// An escrow over the orders of `store`, with nothing reported yet.
    pub fn with_store(store: OrderStore) -> (escrow: EscrowContract)
        ensures
            escrow@.orders == store@,
            escrow@.events == Seq::<EscrowEvent>::empty(),
    {
        EscrowContract { store, log: Vec::new() }
    }

    /// The order store, to read.
    pub fn store(&self) -> (store: &OrderStore)
        ensures
            store@ == self@.orders,
    {
        &self.store
    }

    /// The events reported so far, oldest first.
    pub fn events(&self) -> (events: &Vec<EscrowEvent>)
        ensures
            events@ == self@.events,
    {
        &self.log
    }

    /// Every order is filed under its own id, and there are finitely many.
    pub proof fn lemma_keyed(&self)
        ensures
            keyed_by_id(self@.orders),
            self@.orders.dom().finite(),
    {
        self.store.lemma_keyed();
    }

    /// Creates the order `order_id` between `buyer`, who makes the call, and
    /// `vendor`, in status `Created`, and reports it.
    ///
    /// Rejected as `Unauthorized` where the buyer's authorization is not
    /// proven, else as `AlreadyExists` where the id is taken.
    pub fn create_order(
        &mut self,
        call: &Invocation,
        order_id: [u8; 32],
        buyer: Address,
        vendor: Address,
        amount: i128,
    ) -> (r: Result<Order, EscrowError>)
        ensures
            r == create_result(old(self)@, *call, order_id, buyer, vendor, amount),
            final(self)@ == create_state(old(self)@, *call, order_id, buyer, vendor, amount),
    {
        if !call.authorized {
            return Err(EscrowError::Unauthorized);
        }
        if self.store.contains(&order_id) {
            return Err(EscrowError::AlreadyExists);
        }
        let order = Order {
            id: order_id,
            buyer,
            vendor,
            amount,
            status: OrderStatus::Created,
            created_at: call.timestamp,
            updated_at: call.timestamp,
        };
        self.store.put(order);
        self.log.push(EscrowEvent::OrderCreated { order_id, buyer, vendor, amount });
        Ok(order)
    }

    /// Takes `step` on the order `order_id` on behalf of `caller`.
    fn transition(
        &mut self,
        step: Transition,
        call: &Invocation,
        order_id: [u8; 32],
        caller: Address,
    ) -> (r: Result<Order, EscrowError>)
        ensures
            r == transition_result(old(self)@, step, *call, order_id, caller),
            final(self)@ == transition_state(old(self)@, step, *call, order_id, caller),
    {
        if !call.authorized {
            return Err(EscrowError::Unauthorized);
        }
        let before = match self.store.get(&order_id) {
            Some(order) => order,
            None => {
                return Err(EscrowError::NotFound);
            },
        };
        proof {
            self.store.lemma_keyed();
            assert(before.id =~= order_id);
        }
        if !step.permitted(&before, &caller) {
            return Err(EscrowError::Unauthorized);
        }
        let status = match step.next_status(before.status) {
            Some(status) => status,
            None => {
                return Err(EscrowError::InvalidState);
            },
        };
        let after = Order { status, updated_at: call.timestamp, ..before };
        self.store.put(after);
        match step {
            Transition::Pay => {
                self.log.push(
                    EscrowEvent::OrderPaid { order_id, buyer: caller, amount: before.amount },
                );
            },
            Transition::MarkReady => {
                self.log.push(EscrowEvent::OrderReady { order_id, vendor: caller });
            },
            Transition::Complete => {
                self.log.push(
                    EscrowEvent::OrderCompleted {
                        order_id,
                        buyer: caller,
                        vendor: before.vendor,
                        amount: before.amount,
                    },
                );
            },
            Transition::Cancel => {
                self.log.push(EscrowEvent::OrderCancelled { order_id, caller });
                if before.status.funded() {
                    self.log.push(
                        EscrowEvent::OrderRefunded {
                            order_id,
                            buyer: before.buyer,
                            amount: before.amount,
                        },
                    );
                }
            },
        }
        proof {
            assert(final(self)@.events =~= old(self)@.events + step.announces(before, caller));
        }
        Ok(after)
    }

    /// Records the payment of an order in status `Created` by its buyer.
    ///
    /// Rejected as `Unauthorized` where the authorization is not proven, else
    /// as `NotFound`, else as `Unauthorized` where `buyer` is not the order's
    /// buyer, else as `InvalidState`.
    pub fn pay_order(&mut self, call: &Invocation, order_id: [u8; 32], buyer: Address) -> (r:
        Result<Order, EscrowError>)
        ensures
            r == transition_result(old(self)@, Transition::Pay, *call, order_id, buyer),
            final(self)@ == transition_state(old(self)@, Transition::Pay, *call, order_id, buyer),
    {
        self.transition(Transition::Pay, call, order_id, buyer)
    }

    /// Marks a paid order as ready for pickup, on behalf of its vendor.
    ///
    /// Rejected as `Unauthorized` where the authorization is not proven, else
    /// as `NotFound`, else as `Unauthorized` where `vendor` is not the order's
    /// vendor, else as `InvalidState`.
    pub fn ready_for_pickup(&mut self, call: &Invocation, order_id: [u8; 32], vendor: Address) -> (r:
        Result<Order, EscrowError>)
        ensures
            r == transition_result(old(self)@, Transition::MarkReady, *call, order_id, vendor),
            final(self)@ == transition_state(
                old(self)@,
                Transition::MarkReady,
                *call,
                order_id,
                vendor,
            ),
    {
        self.transition(Transition::MarkReady, call, order_id, vendor)
    }

    /// Completes an order that is ready for pickup, on behalf of its buyer:
    /// the funds are due to the vendor.
    ///
    /// Rejected as `Unauthorized` where the authorization is not proven, else
    /// as `NotFound`, else as `Unauthorized` where `buyer` is not the order's
    /// buyer, else as `InvalidState`.
    pub fn complete_order(&mut self, call: &Invocation, order_id: [u8; 32], buyer: Address) -> (r:
        Result<Order, EscrowError>)
        ensures
            r == transition_result(old(self)@, Transition::Complete, *call, order_id, buyer),
            final(self)@ == transition_state(
                old(self)@,
                Transition::Complete,
                *call,
                order_id,
                buyer,
            ),
    {
        self.transition(Transition::Complete, call, order_id, buyer)
    }

    /// Calls an unresolved order off, on behalf of its buyer or its vendor.
    /// An order whose funds are held ends as `Refunded`, and the refund is
    /// reported after the cancellation; any other ends as `Cancelled`.
    ///
    /// Rejected as `Unauthorized` where the authorization is not proven, else
    /// as `NotFound`, else as `Unauthorized` where `caller` is neither party,
    /// else as `InvalidState` where the order is completed or refunded.
    pub fn cancel_order(&mut self, call: &Invocation, order_id: [u8; 32], caller: Address) -> (r:
        Result<Order, EscrowError>)
        ensures
            r == transition_result(old(self)@, Transition::Cancel, *call, order_id, caller),
            final(self)@ == transition_state(
                old(self)@,
                Transition::Cancel,
                *call,
                order_id,
                caller,
            ),
    {
        self.transition(Transition::Cancel, call, order_id, caller)
    }

    /// The record of the order `order_id`. Anyone may read it.
    pub fn get_order(&self, order_id: [u8; 32]) -> (r: Result<Order, EscrowError>)
        ensures
            r == (if self@.orders.contains_key(order_id@) {
                Ok::<Order, EscrowError>(self@.orders[order_id@])
            } else {
                Err(EscrowError::NotFound)
            }),
    {
        match self.store.get(&order_id) {
            Some(order) => Ok(order),
            None => Err(EscrowError::NotFound),
        }
    }

    /// The orders that `buyer` has placed, by ascending id.
    pub fn get_buyer_orders(&self, buyer: Address) -> (r: Vec<Order>)
        ensures
            selects(r@, self@.orders, |o: Order| o.buyer == buyer),
    {
        self.pick(buyer, true)
    }

    /// The orders placed with `vendor`, by ascending id.
    pub fn get_vendor_orders(&self, vendor: Address) -> (r: Vec<Order>)
        ensures
            selects(r@, self@.orders, |o: Order| o.vendor == vendor),
    {
        self.pick(vendor, false)
    }

    /// The orders in which `party` is the buyer (`as_buyer`) or the vendor.
    fn pick(&self, party: Address, as_buyer: bool) -> (r: Vec<Order>)
        ensures
            as_buyer ==> selects(r@, self@.orders, |o: Order| o.buyer == party),
            !as_buyer ==> selects(r@, self@.orders, |o: Order| o.vendor == party),
    {
        let all = self.store.scan();
        let ghost keep = |o: Order|
            if as_buyer {
                o.buyer == party
            } else {
                o.vendor == party
            };
        let ghost m = self@.orders;
        let mut picked: Vec<Order> = Vec::new();
        let ghost mut from: Seq<int> = Seq::empty();
        let mut at: usize = 0;
        while at < all.len()
            invariant
                at <= all@.len(),
                selects(all@, m, |o: Order| true),
                keep == |o: Order|
                    if as_buyer {
                        o.buyer == party
                    } else {
                        o.vendor == party
                    },
                from.len() == picked@.len(),
                forall|j: int| 0 <= j < from.len() ==> 0 <= #[trigger] from[j] < at,
                forall|j: int| 0 <= j < from.len() ==> picked@[j] == all@[#[trigger] from[j]],
                forall|j: int, k: int| 0 <= j < k < from.len() ==> from[j] < from[k],
                forall|j: int| 0 <= j < picked@.len() ==> keep(#[trigger] picked@[j]),
                forall|i: int|
                    0 <= i < at && keep(#[trigger] all@[i]) ==> exists|j: int|
                        0 <= j < from.len() && #[trigger] from[j] == i,
            decreases all@.len() - at,
        {
            let order = all[at];
            let wanted = if as_buyer {
                order.buyer.same(&party)
            } else {
                order.vendor.same(&party)
            };
            if wanted {
                picked.push(order);
                proof {
                    let before = from;
                    from = from.push(at as int);
                    assert forall|i: int| 0 <= i < at + 1 && keep(#[trigger] all@[i]) implies exists|
                        j: int,
                    |
                        0 <= j < from.len() && #[trigger] from[j] == i by {
                        if i < at {
                            let j = choose|j: int| 0 <= j < before.len() && #[trigger] before[j] == i;
                            assert(from[j] == i);
                        } else {
                            assert(from[from.len() - 1] == i);
                        }
                    }
                }
            }
            at += 1;
        }
        proof {
            assert forall|i: int, j: int| 0 <= i < j < picked@.len() implies precedes(
                #[trigger] picked@[i].id@,
                #[trigger] picked@[j].id@,
            ) by {
                assert(picked@[i] == all@[from[i]] && picked@[j] == all@[from[j]]);
                assert(from[i] < from[j]);
            }
            assert forall|i: int| 0 <= i < picked@.len() implies m.contains_key(
                #[trigger] picked@[i].id@,
            ) && m[picked@[i].id@] == picked@[i] && keep(picked@[i]) by {
                assert(picked@[i] == all@[from[i]]);
            }
            assert forall|id: Seq<u8>| #[trigger] m.contains_key(id) && keep(m[id]) implies exists|
                i: int,
            |
                0 <= i < picked@.len() && #[trigger] picked@[i].id@ == id by {
                let k = choose|k: int| 0 <= k < all@.len() && #[trigger] all@[k].id@ == id;
                assert(m[all@[k].id@] == all@[k]);
                let j = choose|j: int| 0 <= j < from.len() && #[trigger] from[j] == k;
                assert(picked@[j].id@ == id);
            }
            assert(selects(picked@, m, keep));
        }
        picked
    }
}

} // verus!
