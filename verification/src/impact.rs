//! The impact ledger: what users and vendors have saved.
//!
//! An admin records events of impact: meals saved, carbon dioxide avoided,
//! water conserved, money donated. Each event is kept, and counted into the
//! running totals of its user and of the whole marketplace. A saved meal also
//! counts toward carbon dioxide and water, by two conversion factors.

pub mod types;
pub mod rules;
pub mod contract;

pub use types::{
    GlobalImpactSummary, ImpactError, ImpactEvent, ImpactMetricType, ImpactNotice,
    UserImpactSummary,
};
pub use rules::ImpactState;
pub use contract::ImpactContract;
