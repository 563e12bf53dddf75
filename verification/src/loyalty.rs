//! Loyalty points, tiers and the Green Saver Pass subscription.
//!
//! An admin issues each user one loyalty token and credits points to it; the
//! user redeems them. The token's tier follows its points. A subscription
//! runs for thirty days at a time and is renewed by the admin or cancelled by
//! its user.

pub mod types;
pub mod rules;
pub mod contract;

pub use types::{
    LoyaltyError, LoyaltyEvent, LoyaltyTier, LoyaltyToken, Subscription, SubscriptionStatus,
};
pub use rules::LoyaltyState;
pub use contract::LoyaltyContract;
