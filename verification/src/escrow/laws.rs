//! What follows from the rules, proved of every state and every call.

use vstd::prelude::*;
use crate::call::Invocation;
use crate::identity::Address;
use crate::escrow::event::EscrowEvent;
use crate::escrow::order::{EscrowError, Order, OrderStatus};
use crate::escrow::rules::{
    answer, apply, create_result, create_state, follows, moved, reaches, run,
    settlements, settles, transition_result,
    transition_state, EscrowState, Request, Transition,
};
use crate::escrow::store::keyed_by_id;

verus! {

/// A rejected call leaves the orders and the event log as they were.
pub proof fn lemma_rejected_changes_nothing(s: EscrowState, call: Invocation, request: Request)
    requires
        answer(s, call, request) is Err,
    ensures
        apply(s, call, request) == s,
{
}

/// No call removes an order or touches what was fixed when the order was
/// created, and a status changes only along a step of the lifecycle: there
/// is no jump. An order that a call adds starts as `Created`.
pub proof fn lemma_status_moves_by_steps(
    s: EscrowState,
    call: Invocation,
    request: Request,
    id: Seq<u8>,
)
    ensures
        s.orders.contains_key(id) ==> {
            let before = s.orders[id];
            let after = apply(s, call, request).orders[id];
            &&& apply(s, call, request).orders.contains_key(id)
            &&& after.id == before.id
            &&& after.buyer == before.buyer
            &&& after.vendor == before.vendor
            &&& after.amount == before.amount
            &&& after.created_at == before.created_at
            &&& (after.status == before.status || follows(before.status, after.status))
        },
        !s.orders.contains_key(id) && apply(s, call, request).orders.contains_key(id) ==> apply(
            s,
            call,
            request,
        ).orders[id].status == OrderStatus::Created,
{
}

/// Creating an order under an id that is taken fails and leaves the order
/// that has the id as it was. Where the caller's authorization is proven the
/// error is `AlreadyExists`.
pub proof fn lemma_create_existing_id(
    s: EscrowState,
    call: Invocation,
    order_id: [u8; 32],
    buyer: Address,
    vendor: Address,
    amount: i128,
)
    requires
        s.orders.contains_key(order_id@),
    ensures
        create_result(s, call, order_id, buyer, vendor, amount) is Err,
        call.authorized ==> create_result(s, call, order_id, buyer, vendor, amount) == Err::<
            Order,
            EscrowError,
        >(EscrowError::AlreadyExists),
        create_state(s, call, order_id, buyer, vendor, amount) == s,
{
}

/// Paying an order on behalf of anyone but its buyer fails as `Unauthorized`
/// and changes nothing.
pub proof fn lemma_pay_by_stranger(
    s: EscrowState,
    call: Invocation,
    order_id: [u8; 32],
    caller: Address,
)
    requires
        s.orders.contains_key(order_id@),
        caller != s.orders[order_id@].buyer,
    ensures
        transition_result(s, Transition::Pay, call, order_id, caller) == Err::<Order, EscrowError>(
            EscrowError::Unauthorized,
        ),
        transition_state(s, Transition::Pay, call, order_id, caller) == s,
{
}

/// Completing succeeds only on an order that is ready for pickup. From any
/// other status the buyer's authorized call fails as `InvalidState`.
pub proof fn lemma_complete_only_when_ready(
    s: EscrowState,
    call: Invocation,
    order_id: [u8; 32],
    caller: Address,
)
    requires
        s.orders.contains_key(order_id@),
    ensures
        transition_result(s, Transition::Complete, call, order_id, caller) is Ok ==> s.orders[order_id@].status
            == OrderStatus::ReadyForPickup,
        transition_result(s, Transition::Complete, call, order_id, caller) is Ok <==> call.authorized
            && caller == s.orders[order_id@].buyer && s.orders[order_id@].status
            == OrderStatus::ReadyForPickup,
        call.authorized && caller == s.orders[order_id@].buyer && s.orders[order_id@].status
            != OrderStatus::ReadyForPickup ==> transition_result(
            s,
            Transition::Complete,
            call,
            order_id,
            caller,
        ) == Err::<Order, EscrowError>(EscrowError::InvalidState),
{
}

/// Calling off an order that was never paid leaves it `Cancelled`, and no
/// refund is reported: the one event added is the cancellation.
pub proof fn lemma_cancel_unpaid(
    s: EscrowState,
    call: Invocation,
    order_id: [u8; 32],
    caller: Address,
)
    requires
        s.orders.contains_key(order_id@),
        keyed_by_id(s.orders),
        s.orders[order_id@].status == OrderStatus::Created,
        transition_result(s, Transition::Cancel, call, order_id, caller) is Ok,
    ensures
        transition_result(s, Transition::Cancel, call, order_id, caller).unwrap().status
            == OrderStatus::Cancelled,
        transition_state(s, Transition::Cancel, call, order_id, caller).orders[order_id@].status
            == OrderStatus::Cancelled,
        transition_state(s, Transition::Cancel, call, order_id, caller).events == s.events.push(
            EscrowEvent::OrderCancelled { order_id, caller },
        ),
{
    let t = transition_state(s, Transition::Cancel, call, order_id, caller);
    assert(s.orders[order_id@].id =~= order_id);
    assert(t.events =~= s.events.push(EscrowEvent::OrderCancelled { order_id, caller }));
}

/// Calling off an order whose funds are held leaves it `Refunded`, and two
/// events are added: the cancellation, then the refund to the buyer.
pub proof fn lemma_cancel_paid(
    s: EscrowState,
    call: Invocation,
    order_id: [u8; 32],
    caller: Address,
)
    requires
        s.orders.contains_key(order_id@),
        keyed_by_id(s.orders),
        s.orders[order_id@].status == OrderStatus::Paid || s.orders[order_id@].status
            == OrderStatus::ReadyForPickup,
        transition_result(s, Transition::Cancel, call, order_id, caller) is Ok,
    ensures
        transition_result(s, Transition::Cancel, call, order_id, caller).unwrap().status
            == OrderStatus::Refunded,
        transition_state(s, Transition::Cancel, call, order_id, caller).orders[order_id@].status
            == OrderStatus::Refunded,
        transition_state(s, Transition::Cancel, call, order_id, caller).events == s.events.push(
            EscrowEvent::OrderCancelled { order_id, caller },
        ).push(
            EscrowEvent::OrderRefunded {
                order_id,
                buyer: s.orders[order_id@].buyer,
                amount: s.orders[order_id@].amount,
            },
        ),
{
    let t = transition_state(s, Transition::Cancel, call, order_id, caller);
    assert(s.orders[order_id@].id =~= order_id);
    assert(t.events =~= s.events.push(EscrowEvent::OrderCancelled { order_id, caller }).push(
        EscrowEvent::OrderRefunded {
            order_id,
            buyer: s.orders[order_id@].buyer,
            amount: s.orders[order_id@].amount,
        },
    ));
}

/// A completed or refunded order is final: every step on it is refused, and
/// nothing changes.
pub proof fn lemma_terminal_is_final(
    s: EscrowState,
    step: Transition,
    call: Invocation,
    order_id: [u8; 32],
    caller: Address,
)
    requires
        s.orders.contains_key(order_id@),
        s.orders[order_id@].status.is_terminal(),
    ensures
        transition_result(s, step, call, order_id, caller) is Err,
        transition_state(s, step, call, order_id, caller) == s,
{
}

/// Every order of `s` was created no later than it was last touched, and last
/// touched no later than `now`.
pub open spec fn settled_by(s: EscrowState, now: u64) -> bool {
    forall|id: Seq<u8>| #[trigger]
        s.orders.contains_key(id) ==> s.orders[id].created_at <= s.orders[id].updated_at <= now
}

/// The ledger clock never runs backwards over `calls`.
pub open spec fn clock_never_goes_back(calls: Seq<(Invocation, Request)>) -> bool {
    forall|i: int, j: int|
        0 <= i <= j < calls.len() ==> (#[trigger] calls[i]).0.timestamp <= (
        #[trigger] calls[j]).0.timestamp
}

/// One call under a clock that has not gone back keeps every order's creation
/// time and never moves its last-touched time back.
pub proof fn lemma_step_in_time(s: EscrowState, now: u64, call: Invocation, request: Request)
    requires
        settled_by(s, now),
        now <= call.timestamp,
    ensures
        settled_by(apply(s, call, request), call.timestamp),
        forall|id: Seq<u8>| #[trigger]
            s.orders.contains_key(id) ==> {
                &&& apply(s, call, request).orders.contains_key(id)
                &&& apply(s, call, request).orders[id].created_at == s.orders[id].created_at
                &&& apply(s, call, request).orders[id].updated_at >= s.orders[id].updated_at
            },
{
    let t = apply(s, call, request);
    assert forall|id: Seq<u8>| #[trigger] t.orders.contains_key(id) implies t.orders[id].created_at
        <= t.orders[id].updated_at <= call.timestamp by {
        if s.orders.contains_key(id) {
            assert(s.orders[id].created_at <= s.orders[id].updated_at <= now);
        }
    }
    assert forall|id: Seq<u8>| #[trigger] s.orders.contains_key(id) implies t.orders.contains_key(
        id,
    ) && t.orders[id].created_at == s.orders[id].created_at && t.orders[id].updated_at
        >= s.orders[id].updated_at by {
        assert(s.orders[id].created_at <= s.orders[id].updated_at <= now);
    }
}

proof fn lemma_run_settled(s: EscrowState, calls: Seq<(Invocation, Request)>, k: int)
    requires
        clock_never_goes_back(calls),
        0 < k <= calls.len(),
        settled_by(s, calls[0].0.timestamp),
    ensures
        settled_by(run(s, calls.take(k)), calls[k - 1].0.timestamp),
    decreases k,
{
    let now = if k == 1 {
        calls[0].0.timestamp
    } else {
        calls[k - 2].0.timestamp
    };
    assert(calls.take(k).drop_last() =~= calls.take(k - 1));
    assert(calls.take(k).last() == calls[k - 1]);
    if k == 1 {
        assert(run(s, calls.take(0)) == s);
    } else {
        lemma_run_settled(s, calls, k - 1);
        assert(calls[k - 2].0.timestamp <= calls[k - 1].0.timestamp);
    }
    lemma_step_in_time(run(s, calls.take(k - 1)), now, calls[k - 1].0, calls[k - 1].1);
}

/// Over any sequence of calls under a clock that does not go back, an order
/// once present stays present, keeps its creation time, and its last-touched
/// time never decreases: what is read after `later` calls is no older than
/// what was read after `earlier` of them.
pub proof fn lemma_history(
    s: EscrowState,
    calls: Seq<(Invocation, Request)>,
    earlier: int,
    later: int,
    id: Seq<u8>,
)
    requires
        clock_never_goes_back(calls),
        calls.len() > 0 ==> settled_by(s, calls[0].0.timestamp),
        0 <= earlier <= later <= calls.len(),
        run(s, calls.take(earlier)).orders.contains_key(id),
    ensures
        run(s, calls.take(later)).orders.contains_key(id),
        run(s, calls.take(later)).orders[id].created_at == run(
            s,
            calls.take(earlier),
        ).orders[id].created_at,
        run(s, calls.take(later)).orders[id].updated_at >= run(
            s,
            calls.take(earlier),
        ).orders[id].updated_at,
    decreases later - earlier,
{
    if earlier < later {
        lemma_history(s, calls, earlier, later - 1, id);
        let k = later;
        let mid = run(s, calls.take(k - 1));
        assert(calls.take(k).drop_last() =~= calls.take(k - 1));
        assert(calls.take(k).last() == calls[k - 1]);
        let now = if k == 1 {
            calls[0].0.timestamp
        } else {
            calls[k - 2].0.timestamp
        };
        if k == 1 {
            assert(run(s, calls.take(0)) == s);
        } else {
            lemma_run_settled(s, calls, k - 1);
            assert(calls[k - 2].0.timestamp <= calls[k - 1].0.timestamp);
        }
        lemma_step_in_time(mid, now, calls[k - 1].0, calls[k - 1].1);
        assert(mid.orders.contains_key(id));
    }
}

/// `reaches` is what `follows` gives when steps are chained: it holds of a
/// status and itself, of every single step, and of two stretches put
/// together; and whatever it holds of can be walked step by step.
pub proof fn lemma_reaches_chains_steps(a: OrderStatus, b: OrderStatus, c: OrderStatus)
    ensures
        reaches(a, a),
        follows(a, b) ==> reaches(a, b),
        reaches(a, b) && reaches(b, c) ==> reaches(a, c),
        reaches(a, b) && a != b ==> exists|next: OrderStatus| #[trigger]
            follows(a, next) && reaches(next, b),
{
    if reaches(a, b) && a != b {
        let next = match (a, b) {
            (OrderStatus::Created, OrderStatus::Cancelled) => OrderStatus::Cancelled,
            (OrderStatus::Created, _) => OrderStatus::Paid,
            (OrderStatus::Paid, OrderStatus::Refunded) => OrderStatus::Refunded,
            (OrderStatus::Paid, _) => OrderStatus::ReadyForPickup,
            (_, _) => b,
        };
        assert(follows(a, next) && reaches(next, b));
    }
}

/// Over any sequence of calls, an order once present stays present and keeps
/// its parties and its amount, and its status at any later time is one that
/// the lifecycle reaches from its status before.
pub proof fn lemma_status_history(
    s: EscrowState,
    calls: Seq<(Invocation, Request)>,
    earlier: int,
    later: int,
    id: Seq<u8>,
)
    requires
        0 <= earlier <= later <= calls.len(),
        run(s, calls.take(earlier)).orders.contains_key(id),
    ensures
        run(s, calls.take(later)).orders.contains_key(id),
        run(s, calls.take(later)).orders[id].id == run(s, calls.take(earlier)).orders[id].id,
        run(s, calls.take(later)).orders[id].buyer == run(s, calls.take(earlier)).orders[id].buyer,
        run(s, calls.take(later)).orders[id].vendor == run(
            s,
            calls.take(earlier),
        ).orders[id].vendor,
        run(s, calls.take(later)).orders[id].amount == run(
            s,
            calls.take(earlier),
        ).orders[id].amount,
        reaches(
            run(s, calls.take(earlier)).orders[id].status,
            run(s, calls.take(later)).orders[id].status,
        ),
    decreases later - earlier,
{
    if earlier < later {
        lemma_status_history(s, calls, earlier, later - 1, id);
        let mid = run(s, calls.take(later - 1));
        assert(calls.take(later).drop_last() =~= calls.take(later - 1));
        assert(calls.take(later).last() == calls[later - 1]);
        lemma_status_moves_by_steps(mid, calls[later - 1].0, calls[later - 1].1, id);
        lemma_reaches_chains_steps(
            run(s, calls.take(earlier)).orders[id].status,
            mid.orders[id].status,
            run(s, calls.take(later)).orders[id].status,
        );
        lemma_reaches_chains_steps(
            mid.orders[id].status,
            run(s, calls.take(later)).orders[id].status,
            run(s, calls.take(later)).orders[id].status,
        );
    }
}

/// The books are straight: every order is filed under its own id, the funds
/// of no order have left the escrow more than once, and where they have, the
/// order is completed or refunded.
pub open spec fn accounted(s: EscrowState) -> bool {
    &&& keyed_by_id(s.orders)
    &&& forall|id: Seq<u8>| #[trigger] settlements(s.events, id) <= 1
    &&& forall|id: Seq<u8>| #[trigger]
        settlements(s.events, id) == 1 ==> s.orders.contains_key(id)
            && s.orders[id].status.is_terminal()
}

/// An engine that has reported nothing yet, over orders filed under their
/// own ids, has its books straight.
pub proof fn lemma_fresh_books_are_straight(s: EscrowState)
    requires
        keyed_by_id(s.orders),
        s.events.len() == 0,
    ensures
        accounted(s),
{
}

proof fn lemma_settlements_push(events: Seq<EscrowEvent>, event: EscrowEvent, id: Seq<u8>)
    ensures
        settlements(events.push(event), id) == settlements(events, id) + if settles(event, id) {
            1nat
        } else {
            0nat
        },
{
    assert(events.push(event).drop_last() =~= events);
}

/// No call lets funds leave the escrow twice: where the books are straight
/// before a call, they are straight after it.
pub proof fn lemma_settled_at_most_once(s: EscrowState, call: Invocation, request: Request)
    requires
        accounted(s),
    ensures
        accounted(apply(s, call, request)),
{
    let t = apply(s, call, request);
    if answer(s, call, request) is Ok {
        match request {
            Request::Create { order_id, buyer, vendor, amount } => {
                let event = EscrowEvent::OrderCreated { order_id, buyer, vendor, amount };
                assert forall|id: Seq<u8>| #[trigger]
                    settlements(t.events, id) == settlements(s.events, id) by {
                    lemma_settlements_push(s.events, event, id);
                }
                assert forall|id: Seq<u8>| #[trigger]
                    settlements(t.events, id) == 1 implies t.orders.contains_key(id)
                    && t.orders[id].status.is_terminal() by {
                    assert(settlements(s.events, id) == 1);
                }
            },
            Request::Step { step, order_id, caller } => {
                let before = s.orders[order_id@];
                let after = moved(before, step, call);
                assert(before.id@ == order_id@);
                assert(settlements(s.events, order_id@) == 0) by {
                    if settlements(s.events, order_id@) != 0 {
                        assert(settlements(s.events, order_id@) <= 1);
                        assert(settlements(s.events, order_id@) == 1);
                    }
                }
                let said = step.announces(before, caller);
                assert forall|id: Seq<u8>| #[trigger]
                    settlements(t.events, id) == settlements(s.events, id) + if id == order_id@
                        && after.status.is_terminal() {
                        1nat
                    } else {
                        0nat
                    } by {
                    if said.len() == 1 {
                        assert(s.events + said =~= s.events.push(said[0]));
                        lemma_settlements_push(s.events, said[0], id);
                    } else {
                        assert(s.events + said =~= s.events.push(said[0]).push(said[1]));
                        lemma_settlements_push(s.events, said[0], id);
                        lemma_settlements_push(s.events.push(said[0]), said[1], id);
                    }
                }
                assert forall|id: Seq<u8>| #[trigger] settlements(t.events, id) <= 1 by {
                    assert(settlements(s.events, id) <= 1);
                }
                assert forall|id: Seq<u8>| #[trigger]
                    settlements(t.events, id) == 1 implies t.orders.contains_key(id)
                    && t.orders[id].status.is_terminal() by {
                    if id != order_id@ {
                        assert(settlements(s.events, id) == 1);
                    }
                }
            },
        }
    }
}

/// Over any sequence of calls the books stay straight: the funds of no order
/// are released or refunded more than once.
pub proof fn lemma_never_settled_twice(
    s: EscrowState,
    calls: Seq<(Invocation, Request)>,
    id: Seq<u8>,
)
    requires
        accounted(s),
    ensures
        accounted(run(s, calls)),
        settlements(run(s, calls).events, id) <= 1,
    decreases calls.len(),
{
    if calls.len() > 0 {
        lemma_never_settled_twice(s, calls.drop_last(), id);
        lemma_settled_at_most_once(run(s, calls.drop_last()), calls.last().0, calls.last().1);
    }
}

} // verus!
