//! The rules of the order lifecycle, as mathematics.
//!
//! Everything the engine decides is stated here once: who may take a step,
//! from which status, where it leads and what it reports. The executable
//! engine is proved to do exactly this.

use vstd::prelude::*;
use crate::call::Invocation;
use crate::identity::Address;
use crate::escrow::event::EscrowEvent;
use crate::escrow::order::{EscrowError, Order, OrderStatus};

verus! {

/// A step that moves an existing order on.
#[derive(Clone, Copy, Debug, PartialEq, Eq, Structural)]
pub enum Transition {
    /// The buyer pays into escrow.
    Pay,
    /// The vendor reports the goods ready.
    MarkReady,
    /// The buyer confirms receipt.
    Complete,
    /// The buyer or the vendor calls the order off.
    Cancel,
}

impl Transition {
    /// Whether `caller` holds the role on `order` that the step asks for.
    pub open spec fn permits(self, order: Order, caller: Address) -> bool {
        match self {
            Transition::Pay => caller == order.buyer,
            Transition::MarkReady => caller == order.vendor,
            Transition::Complete => caller == order.buyer,
            Transition::Cancel => caller == order.buyer || caller == order.vendor,
        }
    }

    /// The status to which the step leads from `from`, where it may be taken.
    ///
    /// Calling off an order whose funds are held refunds it; calling off one
    /// that was never paid, or was called off before, leaves it cancelled.
    pub open spec fn target(self, from: OrderStatus) -> Option<OrderStatus> {
        match (self, from) {
            (Transition::Pay, OrderStatus::Created) => Some(OrderStatus::Paid),
            (Transition::MarkReady, OrderStatus::Paid) => Some(OrderStatus::ReadyForPickup),
            (Transition::Complete, OrderStatus::ReadyForPickup) => Some(OrderStatus::Completed),
            (Transition::Cancel, OrderStatus::Created) => Some(OrderStatus::Cancelled),
            (Transition::Cancel, OrderStatus::Cancelled) => Some(OrderStatus::Cancelled),
            (Transition::Cancel, OrderStatus::Paid) => Some(OrderStatus::Refunded),
            (Transition::Cancel, OrderStatus::ReadyForPickup) => Some(OrderStatus::Refunded),
            _ => None,
        }
    }

    /// What the step reports when `caller` takes it on the order `before`: its
    /// own event first, then the refund where the step sets one off.
    pub open spec fn announces(self, before: Order, caller: Address) -> Seq<EscrowEvent> {
        match self {
            Transition::Pay => seq![
                EscrowEvent::OrderPaid {
                    order_id: before.id,
                    buyer: caller,
                    amount: before.amount,
                },
            ],
            Transition::MarkReady => seq![
                EscrowEvent::OrderReady { order_id: before.id, vendor: caller },
            ],
            Transition::Complete => seq![
                EscrowEvent::OrderCompleted {
                    order_id: before.id,
                    buyer: caller,
                    vendor: before.vendor,
                    amount: before.amount,
                },
            ],
            Transition::Cancel => if before.status.holds_funds() {
                seq![
                    EscrowEvent::OrderCancelled { order_id: before.id, caller },
                    EscrowEvent::OrderRefunded {
                        order_id: before.id,
                        buyer: before.buyer,
                        amount: before.amount,
                    },
                ]
            } else {
                seq![EscrowEvent::OrderCancelled { order_id: before.id, caller }]
            },
        }
    }

    /// Whether `caller` holds the role on `order` that the step asks for.
    pub fn permitted(&self, order: &Order, caller: &Address) -> (r: bool)
        ensures
            r == self.permits(*order, *caller),
    {
        match self {
            Transition::Pay => caller.same(&order.buyer),
            Transition::MarkReady => caller.same(&order.vendor),
            Transition::Complete => caller.same(&order.buyer),
            Transition::Cancel => caller.same(&order.buyer) || caller.same(&order.vendor),
        }
    }

    /// The status to which the step leads from `from`, where it may be taken.
    pub fn next_status(&self, from: OrderStatus) -> (r: Option<OrderStatus>)
        ensures
            r == self.target(from),
    {
        match (self, from) {
            (Transition::Pay, OrderStatus::Created) => Some(OrderStatus::Paid),
            (Transition::MarkReady, OrderStatus::Paid) => Some(OrderStatus::ReadyForPickup),
            (Transition::Complete, OrderStatus::ReadyForPickup) => Some(OrderStatus::Completed),
            (Transition::Cancel, OrderStatus::Created) => Some(OrderStatus::Cancelled),
            (Transition::Cancel, OrderStatus::Cancelled) => Some(OrderStatus::Cancelled),
            (Transition::Cancel, OrderStatus::Paid) => Some(OrderStatus::Refunded),
            (Transition::Cancel, OrderStatus::ReadyForPickup) => Some(OrderStatus::Refunded),
            _ => None,
        }
    }
}

/// The engine as its callers and observers see it: the record of each order,
/// by id, and the events reported so far, oldest first.
pub struct EscrowState {
    pub orders: Map<Seq<u8>, Order>,
    pub events: Seq<EscrowEvent>,
}

/// Why the engine refuses to create an order, if it does. A call without
/// proven authorization is turned away before anything is looked up.
pub open spec fn create_refusal(s: EscrowState, call: Invocation, order_id: [u8; 32]) -> Option<
    EscrowError,
> {
    if !call.authorized {
        Some(EscrowError::Unauthorized)
    } else if s.orders.contains_key(order_id@) {
        Some(EscrowError::AlreadyExists)
    } else {
        None
    }
}

/// The record of an order that has just been created.
pub open spec fn created(
    call: Invocation,
    order_id: [u8; 32],
    buyer: Address,
    vendor: Address,
    amount: i128,
) -> Order {
    Order {
        id: order_id,
        buyer,
        vendor,
        amount,
        status: OrderStatus::Created,
        created_at: call.timestamp,
        updated_at: call.timestamp,
    }
}

/// What a call to create an order returns.
pub open spec fn create_result(
    s: EscrowState,
    call: Invocation,
    order_id: [u8; 32],
    buyer: Address,
    vendor: Address,
    amount: i128,
) -> Result<Order, EscrowError> {
    match create_refusal(s, call, order_id) {
        Some(e) => Err(e),
        None => Ok(created(call, order_id, buyer, vendor, amount)),
    }
}

/// The state in which a call to create an order leaves the engine.
pub open spec fn create_state(
    s: EscrowState,
    call: Invocation,
    order_id: [u8; 32],
    buyer: Address,
    vendor: Address,
    amount: i128,
) -> EscrowState {
    match create_refusal(s, call, order_id) {
        Some(_) => s,
        None => EscrowState {
            orders: s.orders.insert(order_id@, created(call, order_id, buyer, vendor, amount)),
            events: s.events.push(EscrowEvent::OrderCreated { order_id, buyer, vendor, amount }),
        },
    }
}

/// Why the engine refuses a step, if it does. The checks come in this order:
/// the proof of authorization, the order's existence, the caller's role, the
/// order's status.
pub open spec fn refusal(
    s: EscrowState,
    step: Transition,
    call: Invocation,
    order_id: [u8; 32],
    caller: Address,
) -> Option<EscrowError> {
    if !call.authorized {
        Some(EscrowError::Unauthorized)
    } else if !s.orders.contains_key(order_id@) {
        Some(EscrowError::NotFound)
    } else if !step.permits(s.orders[order_id@], caller) {
        Some(EscrowError::Unauthorized)
    } else if step.target(s.orders[order_id@].status) is None {
        Some(EscrowError::InvalidState)
    } else {
        None
    }
}

/// The record of `before` once `step` has been taken on it.
pub open spec fn moved(before: Order, step: Transition, call: Invocation) -> Order {
    Order { status: step.target(before.status).unwrap(), updated_at: call.timestamp, ..before }
}

/// What a call to take a step returns.
pub open spec fn transition_result(
    s: EscrowState,
    step: Transition,
    call: Invocation,
    order_id: [u8; 32],
    caller: Address,
) -> Result<Order, EscrowError> {
    match refusal(s, step, call, order_id, caller) {
        Some(e) => Err(e),
        None => Ok(moved(s.orders[order_id@], step, call)),
    }
}

/// The state in which a call to take a step leaves the engine.
pub open spec fn transition_state(
    s: EscrowState,
    step: Transition,
    call: Invocation,
    order_id: [u8; 32],
    caller: Address,
) -> EscrowState {
    match refusal(s, step, call, order_id, caller) {
        Some(_) => s,
        None => EscrowState {
            orders: s.orders.insert(order_id@, moved(s.orders[order_id@], step, call)),
            events: s.events + step.announces(s.orders[order_id@], caller),
        },
    }
}


/// One call on the engine, as data.
pub enum Request {
    Create { order_id: [u8; 32], buyer: Address, vendor: Address, amount: i128 },
    Step { step: Transition, order_id: [u8; 32], caller: Address },
}

/// The state in which the call `request`, made under `call`, leaves the
/// engine.
pub open spec fn apply(s: EscrowState, call: Invocation, request: Request) -> EscrowState {
    match request {
        Request::Create { order_id, buyer, vendor, amount } => create_state(
            s,
            call,
            order_id,
            buyer,
            vendor,
            amount,
        ),
        Request::Step { step, order_id, caller } => transition_state(
            s,
            step,
            call,
            order_id,
            caller,
        ),
    }
}

/// What the call `request`, made under `call`, returns.
pub open spec fn answer(s: EscrowState, call: Invocation, request: Request) -> Result<
    Order,
    EscrowError,
> {
    match request {
        Request::Create { order_id, buyer, vendor, amount } => create_result(
            s,
            call,
            order_id,
            buyer,
            vendor,
            amount,
        ),
        Request::Step { step, order_id, caller } => transition_result(
            s,
            step,
            call,
            order_id,
            caller,
        ),
    }
}

/// The state after the calls of `calls`, made one after the other from `s`.
pub open spec fn run(s: EscrowState, calls: Seq<(Invocation, Request)>) -> EscrowState
    decreases calls.len(),
{
    if calls.len() == 0 {
        s
    } else {
        apply(run(s, calls.drop_last()), calls.last().0, calls.last().1)
    }
}

/// Whether the lifecycle has a step that leads from `from` to `to`.
pub open spec fn follows(from: OrderStatus, to: OrderStatus) -> bool {
    ||| from == OrderStatus::Created && to == OrderStatus::Paid
    ||| from == OrderStatus::Paid && to == OrderStatus::ReadyForPickup
    ||| from == OrderStatus::ReadyForPickup && to == OrderStatus::Completed
    ||| from == OrderStatus::Created && to == OrderStatus::Cancelled
    ||| from == OrderStatus::Cancelled && to == OrderStatus::Cancelled
    ||| from == OrderStatus::Paid && to == OrderStatus::Refunded
    ||| from == OrderStatus::ReadyForPickup && to == OrderStatus::Refunded
}

/// Whether an order in status `from` can come to be in status `to`, by any
/// number of steps of the lifecycle.
pub open spec fn reaches(from: OrderStatus, to: OrderStatus) -> bool {
    from == to || match from {
        OrderStatus::Created => true,
        OrderStatus::Paid => to == OrderStatus::ReadyForPickup || to == OrderStatus::Completed
            || to == OrderStatus::Refunded,
        OrderStatus::ReadyForPickup => to == OrderStatus::Completed || to
            == OrderStatus::Refunded,
        _ => false,
    }
}

/// Whether `event` tells that the funds of the order `id` have left the
/// escrow, to the vendor or back to the buyer.
pub open spec fn settles(event: EscrowEvent, id: Seq<u8>) -> bool {
    (event is OrderCompleted || event is OrderRefunded) && event.spec_order_id() == id
}

/// How often `events` tell that the funds of the order `id` have left the
/// escrow.
pub open spec fn settlements(events: Seq<EscrowEvent>, id: Seq<u8>) -> nat
    decreases events.len(),
{
    if events.len() == 0 {
        0
    } else {
        settlements(events.drop_last(), id) + if settles(events.last(), id) {
            1nat
        } else {
            0nat
        }
    }
}

} // verus!
