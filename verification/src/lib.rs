//! Ledger-backed business rules of a food-rescue marketplace.
//!
//! The heart of the crate is [`escrow`]: an engine that carries each order
//! through its lifecycle, checks who may move it and records an event for every
//! step it commits. Beside it stand [`loyalty`], the points and subscriptions
//! of the marketplace's users, and [`impact`], the ledger of what they have
//! saved.
//!
//! Each of the three is a plain value that owns its tables. A host hands it a
//! call together with an [`call::Invocation`], which says whether the caller
//! is authenticated and what time it is; the contract answers with a result
//! and keeps a log of what it committed. Nothing here reads a clock, a disk or
//! a network.

pub mod bytes;
pub mod call;
pub mod identity;
pub mod registry;
pub mod digest;
pub mod escrow;
pub mod loyalty;
pub mod impact;
