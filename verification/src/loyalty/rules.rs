//! The rules of the loyalty program, as mathematics.

use vstd::prelude::*;
use crate::call::Invocation;
use crate::identity::Address;
use crate::loyalty::types::{
    LoyaltyError, LoyaltyEvent, LoyaltyTier, LoyaltyToken, Subscription, SubscriptionStatus,
};

verus! {

/// How long a token is valid from its creation: 365 days, in seconds.
pub const TOKEN_LIFETIME: u64 = 31536000;

/// How long a subscription runs per payment: 30 days, in seconds.
pub const SUBSCRIPTION_PERIOD: u64 = 2592000;

/// The points from which a token ranks as `tier`.
pub open spec fn threshold(tier: LoyaltyTier) -> i128 {
    match tier {
        LoyaltyTier::Bronze => 0,
        LoyaltyTier::Silver => 100,
        LoyaltyTier::Gold => 500,
        LoyaltyTier::Platinum => 1000,
    }
}

/// The price of thirty days of a subscription of `tier`, in cents.
pub open spec fn price(tier: LoyaltyTier) -> i128 {
    match tier {
        LoyaltyTier::Bronze => 500,
        LoyaltyTier::Silver => 1000,
        LoyaltyTier::Gold => 2000,
        LoyaltyTier::Platinum => 3000,
    }
}

/// The highest tier whose threshold `points` reach; `Bronze` below them all.
pub open spec fn tier_for(points: i128) -> LoyaltyTier {
    if points >= threshold(LoyaltyTier::Platinum) {
        LoyaltyTier::Platinum
    } else if points >= threshold(LoyaltyTier::Gold) {
        LoyaltyTier::Gold
    } else if points >= threshold(LoyaltyTier::Silver) {
        LoyaltyTier::Silver
    } else {
        LoyaltyTier::Bronze
    }
}

/// The contract as its callers and observers see it.
pub struct LoyaltyState {
    /// The admin, once the contract is initialized.
    pub admin: Option<Address>,
    pub tokens: Map<Address, LoyaltyToken>,
    pub subscriptions: Map<Address, Subscription>,
    /// The events reported so far, oldest first.
    pub events: Seq<LoyaltyEvent>,
}

/// What a call does: the state it leaves and what it returns.
pub struct Outcome<T> {
    pub state: LoyaltyState,
    pub result: Result<T, LoyaltyError>,
}

/// The outcome of a call that is rejected.
pub open spec fn rejected<T>(s: LoyaltyState, e: LoyaltyError) -> Outcome<T> {
    Outcome { state: s, result: Err(e) }
}

/// Why a call that only the admin may make is refused, if it is.
pub open spec fn admin_refusal(s: LoyaltyState, call: Invocation, admin: Address) -> Option<
    LoyaltyError,
> {
    if !call.authorized {
        Some(LoyaltyError::Unauthorized)
    } else if s.admin is None {
        Some(LoyaltyError::NotInitialized)
    } else if s.admin != Some(admin) {
        Some(LoyaltyError::Unauthorized)
    } else {
        None
    }
}

/// Why a call that a user makes for themselves is refused, if it is.
pub open spec fn user_refusal(s: LoyaltyState, call: Invocation) -> Option<LoyaltyError> {
    if !call.authorized {
        Some(LoyaltyError::Unauthorized)
    } else if s.admin is None {
        Some(LoyaltyError::NotInitialized)
    } else {
        None
    }
}

/// Making `admin` the admin of a contract that has none.
pub open spec fn initialized(s: LoyaltyState, admin: Address) -> Outcome<()> {
    if s.admin is Some {
        rejected(s, LoyaltyError::AlreadyInitialized)
    } else {
        Outcome {
            state: LoyaltyState {
                admin: Some(admin),
                tokens: Map::empty(),
                subscriptions: Map::empty(),
                events: s.events,
            },
            result: Ok(()),
        }
    }
}

/// Issuing `user` a token named `id`.
pub open spec fn token_issued(
    s: LoyaltyState,
    call: Invocation,
    user: Address,
    admin: Address,
    id: [u8; 32],
) -> Outcome<LoyaltyToken> {
    if admin_refusal(s, call, admin) is Some {
        rejected(s, admin_refusal(s, call, admin).unwrap())
    } else if s.tokens.contains_key(user) {
        rejected(s, LoyaltyError::AlreadyExists)
    } else if call.timestamp + TOKEN_LIFETIME > u64::MAX {
        rejected(s, LoyaltyError::Overflow)
    } else {
        let token = LoyaltyToken {
            id,
            owner: user,
            points: 0,
            tier: LoyaltyTier::Bronze,
            created_at: call.timestamp,
            updated_at: call.timestamp,
            expiry: (call.timestamp + TOKEN_LIFETIME) as u64,
        };
        Outcome {
            state: LoyaltyState {
                tokens: s.tokens.insert(user, token),
                events: s.events.push(LoyaltyEvent::TokenCreated { token_id: id, user }),
                ..s
            },
            result: Ok(token),
        }
    }
}

/// A token after its balance has become `balance` at `now`: the tier follows
/// the balance.
pub open spec fn rebalanced(token: LoyaltyToken, balance: i128, now: u64) -> LoyaltyToken {
    LoyaltyToken { points: balance, tier: tier_for(balance), updated_at: now, ..token }
}

/// What is reported when `token` changes to `after`: the change of tier
/// first, where there is one, then `last`.
pub open spec fn balance_events(token: LoyaltyToken, after: LoyaltyToken, last: LoyaltyEvent) -> Seq<
    LoyaltyEvent,
> {
    if after.tier != token.tier {
        seq![
            LoyaltyEvent::TierChanged { token_id: token.id, user: token.owner, tier: after.tier },
            last,
        ]
    } else {
        seq![last]
    }
}

/// Crediting `points` to the token of `user`. `points` is taken as given,
/// whatever its sign.
pub open spec fn points_added(
    s: LoyaltyState,
    call: Invocation,
    user: Address,
    points: i128,
    admin: Address,
) -> Outcome<LoyaltyToken> {
    if admin_refusal(s, call, admin) is Some {
        rejected(s, admin_refusal(s, call, admin).unwrap())
    } else if !s.tokens.contains_key(user) {
        rejected(s, LoyaltyError::NotFound)
    } else if !(i128::MIN <= s.tokens[user].points + points <= i128::MAX) {
        rejected(s, LoyaltyError::Overflow)
    } else {
        let token = s.tokens[user];
        let after = rebalanced(token, (token.points + points) as i128, call.timestamp);
        Outcome {
            state: LoyaltyState {
                tokens: s.tokens.insert(user, after),
                events: s.events + balance_events(
                    token,
                    after,
                    LoyaltyEvent::PointsAdded {
                        token_id: token.id,
                        user,
                        points,
                        balance: after.points,
                    },
                ),
                ..s
            },
            result: Ok(after),
        }
    }
}

/// Taking `points` off the token of `user`, who makes the call.
pub open spec fn points_redeemed(
    s: LoyaltyState,
    call: Invocation,
    user: Address,
    points: i128,
) -> Outcome<LoyaltyToken> {
    if user_refusal(s, call) is Some {
        rejected(s, user_refusal(s, call).unwrap())
    } else if !s.tokens.contains_key(user) {
        rejected(s, LoyaltyError::NotFound)
    } else if s.tokens[user].points < points {
        rejected(s, LoyaltyError::InsufficientPoints)
    } else if s.tokens[user].points - points > i128::MAX {
        rejected(s, LoyaltyError::Overflow)
    } else {
        let token = s.tokens[user];
        let after = rebalanced(token, (token.points - points) as i128, call.timestamp);
        Outcome {
            state: LoyaltyState {
                tokens: s.tokens.insert(user, after),
                events: s.events + balance_events(
                    token,
                    after,
                    LoyaltyEvent::PointsRedeemed {
                        token_id: token.id,
                        user,
                        points,
                        balance: after.points,
                    },
                ),
                ..s
            },
            result: Ok(after),
        }
    }
}

/// Starting a subscription named `id` for `user`, in place of one that is no
/// longer active.
pub open spec fn subscription_created(
    s: LoyaltyState,
    call: Invocation,
    user: Address,
    tier: LoyaltyTier,
    auto_renew: bool,
    admin: Address,
    id: [u8; 32],
) -> Outcome<Subscription> {
    if admin_refusal(s, call, admin) is Some {
        rejected(s, admin_refusal(s, call, admin).unwrap())
    } else if s.subscriptions.contains_key(user) && s.subscriptions[user].status
        == SubscriptionStatus::Active {
        rejected(s, LoyaltyError::AlreadyExists)
    } else if call.timestamp + SUBSCRIPTION_PERIOD > u64::MAX {
        rejected(s, LoyaltyError::Overflow)
    } else {
        let subscription = Subscription {
            id,
            user,
            tier,
            status: SubscriptionStatus::Active,
            start_date: call.timestamp,
            end_date: (call.timestamp + SUBSCRIPTION_PERIOD) as u64,
            auto_renew,
        };
        Outcome {
            state: LoyaltyState {
                subscriptions: s.subscriptions.insert(user, subscription),
                events: s.events.push(
                    LoyaltyEvent::SubscriptionCreated { subscription_id: id, user, tier },
                ),
                ..s
            },
            result: Ok(subscription),
        }
    }
}

/// From when a renewal at `now` counts: from the end of the running period,
/// or from `now` where that has passed.
pub open spec fn renewal_base(subscription: Subscription, now: u64) -> u64 {
    if now > subscription.end_date {
        now
    } else {
        subscription.end_date
    }
}

/// Renewing the subscription of `user` for another period.
pub open spec fn subscription_renewed(
    s: LoyaltyState,
    call: Invocation,
    user: Address,
    admin: Address,
) -> Outcome<Subscription> {
    if admin_refusal(s, call, admin) is Some {
        rejected(s, admin_refusal(s, call, admin).unwrap())
    } else if !s.subscriptions.contains_key(user) {
        rejected(s, LoyaltyError::NotFound)
    } else if s.subscriptions[user].status == SubscriptionStatus::Cancelled {
        rejected(s, LoyaltyError::InvalidState)
    } else if renewal_base(s.subscriptions[user], call.timestamp) + SUBSCRIPTION_PERIOD > u64::MAX {
        rejected(s, LoyaltyError::Overflow)
    } else {
        let before = s.subscriptions[user];
        let after = Subscription {
            status: SubscriptionStatus::Active,
            end_date: (renewal_base(before, call.timestamp) + SUBSCRIPTION_PERIOD) as u64,
            ..before
        };
        Outcome {
            state: LoyaltyState {
                subscriptions: s.subscriptions.insert(user, after),
                events: s.events.push(
                    LoyaltyEvent::SubscriptionRenewed {
                        subscription_id: before.id,
                        user,
                        end_date: after.end_date,
                    },
                ),
                ..s
            },
            result: Ok(after),
        }
    }
}

/// Cancelling the active subscription of `user`, who makes the call.
pub open spec fn subscription_cancelled(s: LoyaltyState, call: Invocation, user: Address) -> Outcome<
    Subscription,
> {
    if user_refusal(s, call) is Some {
        rejected(s, user_refusal(s, call).unwrap())
    } else if !s.subscriptions.contains_key(user) {
        rejected(s, LoyaltyError::NotFound)
    } else if s.subscriptions[user].status != SubscriptionStatus::Active {
        rejected(s, LoyaltyError::InvalidState)
    } else {
        let before = s.subscriptions[user];
        let after = Subscription {
            status: SubscriptionStatus::Cancelled,
            auto_renew: false,
            ..before
        };
        Outcome {
            state: LoyaltyState {
                subscriptions: s.subscriptions.insert(user, after),
                events: s.events.push(
                    LoyaltyEvent::SubscriptionCancelled { subscription_id: before.id, user },
                ),
                ..s
            },
            result: Ok(after),
        }
    }
}

/// Whether `user` has a subscription that is active and has not run out at
/// `now`.
pub open spec fn subscription_active(s: LoyaltyState, user: Address, now: u64) -> bool {
    s.subscriptions.contains_key(user) && s.subscriptions[user].status
        == SubscriptionStatus::Active && now <= s.subscriptions[user].end_date
}

} // verus!
