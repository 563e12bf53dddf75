//! Orders and the ways a call on one can fail.

use vstd::prelude::*;
use crate::identity::Address;

verus! {

/// Where an order stands in its lifecycle.
#[derive(Clone, Copy, Debug, PartialEq, Eq, Structural)]
pub enum OrderStatus {
    /// Placed by the buyer, not yet paid.
    Created,
    /// Paid into escrow.
    Paid,
    /// The vendor has the goods ready.
    ReadyForPickup,
    /// Received by the buyer; the funds go to the vendor.
    Completed,
    /// Called off before any payment.
    Cancelled,
    /// Called off after payment; the funds go back to the buyer.
    Refunded,
}

impl OrderStatus {
    /// A terminal status admits no further step.
    pub open spec fn is_terminal(self) -> bool {
        self == OrderStatus::Completed || self == OrderStatus::Refunded
    }

    /// Whether the escrow holds the order's funds in this status.
    pub open spec fn holds_funds(self) -> bool {
        self == OrderStatus::Paid || self == OrderStatus::ReadyForPickup
    }

    pub fn terminal(&self) -> (r: bool)
        ensures
            r == self.is_terminal(),
    {
        match self {
            OrderStatus::Completed => true,
            OrderStatus::Refunded => true,
            _ => false,
        }
    }

    pub fn funded(&self) -> (r: bool)
        ensures
            r == self.holds_funds(),
    {
        match self {
            OrderStatus::Paid => true,
            OrderStatus::ReadyForPickup => true,
            _ => false,
        }
    }
}

/// One escrowed purchase between a buyer and a vendor.
///
/// `id`, `buyer`, `vendor`, `amount` and `created_at` are fixed when the order
/// is created. `amount` is in minor currency units and is taken as given: no
/// step checks its sign or size.
#[derive(Clone, Copy, Debug, PartialEq, Eq)]
pub struct Order {
    pub id: [u8; 32],
    pub buyer: Address,
    pub vendor: Address,
    pub amount: i128,
    pub status: OrderStatus,
    pub created_at: u64,
    pub updated_at: u64,
}

/// Why a call was rejected. A rejected call changes nothing.
#[derive(Clone, Copy, Debug, PartialEq, Eq, Structural)]
pub enum EscrowError {
    /// An order with this id exists already.
    AlreadyExists,
    /// No order has this id.
    NotFound,
    /// The caller's authorization was not proven, or the caller does not hold
    /// the role that the step asks for.
    Unauthorized,
    /// The order's status does not admit the step.
    InvalidState,
}

} // verus!
