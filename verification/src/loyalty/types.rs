//! Tokens, subscriptions and what is reported of them.

use vstd::prelude::*;
use crate::identity::Address;

verus! {

/// The rank of a loyalty token, and the grade of a subscription.
#[derive(Clone, Copy, Debug, PartialEq, Eq, Structural)]
pub enum LoyaltyTier {
    Bronze,
    Silver,
    Gold,
    Platinum,
}

/// Where a subscription stands.
#[derive(Clone, Copy, Debug, PartialEq, Eq, Structural)]
pub enum SubscriptionStatus {
    Active,
    Expired,
    Cancelled,
}

/// A user's loyalty account.
#[derive(Clone, Copy, Debug, PartialEq, Eq)]
pub struct LoyaltyToken {
    pub id: [u8; 32],
    pub owner: Address,
    pub points: i128,
    pub tier: LoyaltyTier,
    pub created_at: u64,
    pub updated_at: u64,
    pub expiry: u64,
}

/// A user's Green Saver Pass.
#[derive(Clone, Copy, Debug, PartialEq, Eq)]
pub struct Subscription {
    pub id: [u8; 32],
    pub user: Address,
    pub tier: LoyaltyTier,
    pub status: SubscriptionStatus,
    pub start_date: u64,
    pub end_date: u64,
    pub auto_renew: bool,
}

/// Why a call was rejected. A rejected call changes nothing.
#[derive(Clone, Copy, Debug, PartialEq, Eq, Structural)]
pub enum LoyaltyError {
    /// The contract has an admin already.
    AlreadyInitialized,
    /// The contract has no admin yet.
    NotInitialized,
    /// The caller's authorization was not proven, or the caller is not the
    /// admin.
    Unauthorized,
    /// The user has a token, or an active subscription, already.
    AlreadyExists,
    /// The user has no token, or no subscription.
    NotFound,
    /// The token holds fewer points than are to be redeemed.
    InsufficientPoints,
    /// The subscription's status does not admit the step.
    InvalidState,
    /// A balance or a date would leave the range of its type.
    Overflow,
}

/// What the contract reports of a committed call.
#[derive(Clone, Copy, Debug, PartialEq, Eq)]
pub enum LoyaltyEvent {
    TokenCreated { token_id: [u8; 32], user: Address },
    TierChanged { token_id: [u8; 32], user: Address, tier: LoyaltyTier },
    PointsAdded { token_id: [u8; 32], user: Address, points: i128, balance: i128 },
    PointsRedeemed { token_id: [u8; 32], user: Address, points: i128, balance: i128 },
    SubscriptionCreated { subscription_id: [u8; 32], user: Address, tier: LoyaltyTier },
    SubscriptionRenewed { subscription_id: [u8; 32], user: Address, end_date: u64 },
    SubscriptionCancelled { subscription_id: [u8; 32], user: Address },
}

impl LoyaltyEvent {
    /// The topic under which the event is published.
    pub open spec fn spec_topic(self) -> Seq<char> {
        match self {
            LoyaltyEvent::TokenCreated { .. } => "token_created"@,
            LoyaltyEvent::TierChanged { .. } => "tier_changed"@,
            LoyaltyEvent::PointsAdded { .. } => "points_added"@,
            LoyaltyEvent::PointsRedeemed { .. } => "points_redeemed"@,
            LoyaltyEvent::SubscriptionCreated { .. } => "subscription_created"@,
            LoyaltyEvent::SubscriptionRenewed { .. } => "subscription_renewed"@,
            LoyaltyEvent::SubscriptionCancelled { .. } => "subscription_cancelled"@,
        }
    }

    pub fn topic(&self) -> (t: &'static str)
        ensures
            t@ == self.spec_topic(),
    {
        match self {
            LoyaltyEvent::TokenCreated { .. } => "token_created",
            LoyaltyEvent::TierChanged { .. } => "tier_changed",
            LoyaltyEvent::PointsAdded { .. } => "points_added",
            LoyaltyEvent::PointsRedeemed { .. } => "points_redeemed",
            LoyaltyEvent::SubscriptionCreated { .. } => "subscription_created",
            LoyaltyEvent::SubscriptionRenewed { .. } => "subscription_renewed",
            LoyaltyEvent::SubscriptionCancelled { .. } => "subscription_cancelled",
        }
    }
}

} // verus!
