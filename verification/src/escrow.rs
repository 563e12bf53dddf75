//! The escrow order lifecycle engine.
//!
//! An order is created by its buyer, paid, made ready by the vendor and
//! completed by the buyer; either party may cancel it while it is unresolved,
//! and a cancelled order that had been paid is refunded. [`EscrowContract`]
//! applies these steps to an [`OrderStore`] and logs an [`EscrowEvent`] for
//! each one it commits. What a step does is written down once, as the spec
//! functions of [`rules`]; [`laws`] proves what follows from them.

pub mod order;
pub mod event;
pub mod store;
pub mod rules;
pub mod engine;
pub mod laws;

pub use order::{EscrowError, Order, OrderStatus};
pub use event::EscrowEvent;
pub use store::OrderStore;
pub use rules::{EscrowState, Request, Transition};
pub use crate::call::Invocation;
pub use engine::EscrowContract;
