//! Notifications for observers of the escrow.

use vstd::prelude::*;
use crate::identity::Address;

verus! {

/// What the engine reports of a committed step. Observers read these; the
/// engine never does.
#[derive(Clone, Copy, Debug, PartialEq, Eq)]
pub enum EscrowEvent {
    OrderCreated { order_id: [u8; 32], buyer: Address, vendor: Address, amount: i128 },
    OrderPaid { order_id: [u8; 32], buyer: Address, amount: i128 },
    OrderReady { order_id: [u8; 32], vendor: Address },
    /// The funds of the order are due to `vendor`.
    OrderCompleted { order_id: [u8; 32], buyer: Address, vendor: Address, amount: i128 },
    OrderCancelled { order_id: [u8; 32], caller: Address },
    /// The funds of the order are due back to `buyer`.
    OrderRefunded { order_id: [u8; 32], buyer: Address, amount: i128 },
}

impl EscrowEvent {
    /// The topic under which the event is published.
    pub open spec fn spec_topic(self) -> Seq<char> {
        match self {
            EscrowEvent::OrderCreated { .. } => "order_created"@,
            EscrowEvent::OrderPaid { .. } => "order_paid"@,
            EscrowEvent::OrderReady { .. } => "order_ready"@,
            EscrowEvent::OrderCompleted { .. } => "order_completed"@,
            EscrowEvent::OrderCancelled { .. } => "order_cancelled"@,
            EscrowEvent::OrderRefunded { .. } => "order_refunded"@,
        }
    }

    pub fn topic(&self) -> (t: &'static str)
        ensures
            t@ == self.spec_topic(),
    {
        match self {
            EscrowEvent::OrderCreated { .. } => "order_created",
            EscrowEvent::OrderPaid { .. } => "order_paid",
            EscrowEvent::OrderReady { .. } => "order_ready",
            EscrowEvent::OrderCompleted { .. } => "order_completed",
            EscrowEvent::OrderCancelled { .. } => "order_cancelled",
            EscrowEvent::OrderRefunded { .. } => "order_refunded",
        }
    }

    /// The order that the event is about.
    pub open spec fn spec_order_id(self) -> Seq<u8> {
        match self {
            EscrowEvent::OrderCreated { order_id, .. } => order_id@,
            EscrowEvent::OrderPaid { order_id, .. } => order_id@,
            EscrowEvent::OrderReady { order_id, .. } => order_id@,
            EscrowEvent::OrderCompleted { order_id, .. } => order_id@,
            EscrowEvent::OrderCancelled { order_id, .. } => order_id@,
            EscrowEvent::OrderRefunded { order_id, .. } => order_id@,
        }
    }

    pub fn order_id(&self) -> (id: [u8; 32])
        ensures
            id@ == self.spec_order_id(),
    {
        match self {
            EscrowEvent::OrderCreated { order_id, .. } => *order_id,
            EscrowEvent::OrderPaid { order_id, .. } => *order_id,
            EscrowEvent::OrderReady { order_id, .. } => *order_id,
            EscrowEvent::OrderCompleted { order_id, .. } => *order_id,
            EscrowEvent::OrderCancelled { order_id, .. } => *order_id,
            EscrowEvent::OrderRefunded { order_id, .. } => *order_id,
        }
    }
}

} // verus!
