//! The loyalty contract: its tables and the operations on them.

use vstd::prelude::*;
use crate::call::Invocation;
use crate::digest::{new_id, stamped_id};
use crate::identity::Address;
use crate::loyalty::rules::{
    admin_refusal, initialized, points_added, points_redeemed, price, subscription_active,
    subscription_cancelled, subscription_created, subscription_renewed, threshold, tier_for,
    token_issued, user_refusal, LoyaltyState, SUBSCRIPTION_PERIOD, TOKEN_LIFETIME,
};
use crate::loyalty::types::{
    LoyaltyError, LoyaltyEvent, LoyaltyTier, LoyaltyToken, Subscription, SubscriptionStatus,
};
use crate::registry::AddressMap;

verus! {

impl LoyaltyTier {
    /// The points from which a token ranks as this tier.
    pub fn threshold(&self) -> (points: i128)
        ensures
            points == threshold(*self),
    {
        match self {
            LoyaltyTier::Bronze => 0,
            LoyaltyTier::Silver => 100,
            LoyaltyTier::Gold => 500,
            LoyaltyTier::Platinum => 1000,
        }
    }

    /// The price of thirty days of a subscription of this tier, in cents.
    pub fn price(&self) -> (cents: i128)
        ensures
            cents == price(*self),
    {
        match self {
            LoyaltyTier::Bronze => 500,
            LoyaltyTier::Silver => 1000,
            LoyaltyTier::Gold => 2000,
            LoyaltyTier::Platinum => 3000,
        }
    }

    /// The highest tier whose threshold `points` reach.
    pub fn for_points(points: i128) -> (tier: LoyaltyTier)
        ensures
            tier == tier_for(points),
    {
        if points >= LoyaltyTier::Platinum.threshold() {
            LoyaltyTier::Platinum
        } else if points >= LoyaltyTier::Gold.threshold() {
            LoyaltyTier::Gold
        } else if points >= LoyaltyTier::Silver.threshold() {
            LoyaltyTier::Silver
        } else {
            LoyaltyTier::Bronze
        }
    }
}

/// The loyalty program of a marketplace. Every operation either commits as a
/// whole, and then logs what it did, or is rejected and changes nothing.
pub struct LoyaltyContract {
    admin: Option<Address>,
    tokens: AddressMap<LoyaltyToken>,
    subscriptions: AddressMap<Subscription>,
    log: Vec<LoyaltyEvent>,
}

impl View for LoyaltyContract {
    type V = LoyaltyState;

    closed spec fn view(&self) -> LoyaltyState {
        LoyaltyState {
            admin: self.admin,
            tokens: self.tokens@,
            subscriptions: self.subscriptions@,
            events: self.log@,
        }
    }
}

impl LoyaltyContract {
    /// A contract that has not been initialized.
    pub fn new() -> (contract: LoyaltyContract)
        ensures
            contract@.admin is None,
            contract@.tokens == Map::<Address, LoyaltyToken>::empty(),
            contract@.subscriptions == Map::<Address, Subscription>::empty(),
            contract@.events == Seq::<LoyaltyEvent>::empty(),
    {
        LoyaltyContract {
            admin: None,
            tokens: AddressMap::new(),
            subscriptions: AddressMap::new(),
            log: Vec::new(),
        }
    }

    /// A contract over tables kept elsewhere, with nothing reported yet.
    pub fn restore(
        admin: Option<Address>,
        tokens: AddressMap<LoyaltyToken>,
        subscriptions: AddressMap<Subscription>,
    ) -> (contract: LoyaltyContract)
        ensures
            contract@.admin == admin,
            contract@.tokens == tokens@,
            contract@.subscriptions == subscriptions@,
            contract@.events == Seq::<LoyaltyEvent>::empty(),
    {
        LoyaltyContract { admin, tokens, subscriptions, log: Vec::new() }
    }

    /// The admin, once the contract is initialized.
    pub fn admin(&self) -> (admin: Option<Address>)
        ensures
            admin == self@.admin,
    {
        self.admin
    }

    /// The table of tokens, to read.
    pub fn tokens(&self) -> (tokens: &AddressMap<LoyaltyToken>)
        ensures
            tokens@ == self@.tokens,
    {
        &self.tokens
    }

    /// The table of subscriptions, to read.
    pub fn subscriptions(&self) -> (subscriptions: &AddressMap<Subscription>)
        ensures
            subscriptions@ == self@.subscriptions,
    {
        &self.subscriptions
    }

    /// The events reported so far, oldest first.
    pub fn events(&self) -> (events: &Vec<LoyaltyEvent>)
        ensures
            events@ == self@.events,
    {
        &self.log
    }

    fn check_admin(&self, call: &Invocation, admin: &Address) -> (r: Option<LoyaltyError>)
        ensures
            r == admin_refusal(self@, *call, *admin),
    {
        if !call.authorized {
            return Some(LoyaltyError::Unauthorized);
        }
        match &self.admin {
            None => Some(LoyaltyError::NotInitialized),
            Some(stored) => if stored.same(admin) {
                None
            } else {
                Some(LoyaltyError::Unauthorized)
            },
        }
    }

    fn check_user(&self, call: &Invocation) -> (r: Option<LoyaltyError>)
        ensures
            r == user_refusal(self@, *call),
    {
        if !call.authorized {
            Some(LoyaltyError::Unauthorized)
        } else if self.admin.is_none() {
            Some(LoyaltyError::NotInitialized)
        } else {
            None
        }
    }

    /// Makes `admin` the admin and empties the tables. Rejected as
    /// `AlreadyInitialized` where the contract has an admin.
    pub fn initialize(&mut self, admin: Address) -> (r: Result<(), LoyaltyError>)
        ensures
            r == initialized(old(self)@, admin).result,
            final(self)@ == initialized(old(self)@, admin).state,
    {
        if self.admin.is_some() {
            return Err(LoyaltyError::AlreadyInitialized);
        }
        self.admin = Some(admin);
        self.tokens = AddressMap::new();
        self.subscriptions = AddressMap::new();
        Ok(())
    }

    /// Issues `user` a token without points, valid for a year, on behalf of
    /// `admin`. The token is named by the digest of the user and the time.
    ///
    /// Rejected as `token_issued` says: `Unauthorized`, `NotInitialized`,
    /// `AlreadyExists` where the user has a token, `Overflow` where the
    /// expiry would pass the end of time.
    pub fn create_token(&mut self, call: &Invocation, user: Address, admin: Address) -> (r: Result<
        LoyaltyToken,
        LoyaltyError,
    >)
        ensures
            exists|id: [u8; 32]|
                {
                    &&& id@ == stamped_id(user, Seq::<u8>::empty(), call.timestamp)
                    &&& r == (#[trigger] token_issued(old(self)@, *call, user, admin, id)).result
                    &&& final(self)@ == token_issued(old(self)@, *call, user, admin, id).state
                },
    {
        let id = new_id(&user, None, call.timestamp);
        self.issue_token(call, user, admin, id)
    }

    /// Issues `user` a token named `token_id`, on behalf of `admin`.
    pub fn issue_token(
        &mut self,
        call: &Invocation,
        user: Address,
        admin: Address,
        token_id: [u8; 32],
    ) -> (r: Result<LoyaltyToken, LoyaltyError>)
        ensures
            r == token_issued(old(self)@, *call, user, admin, token_id).result,
            final(self)@ == token_issued(old(self)@, *call, user, admin, token_id).state,
    {
        if let Some(e) = self.check_admin(call, &admin) {
            return Err(e);
        }
        if self.tokens.contains_key(&user) {
            return Err(LoyaltyError::AlreadyExists);
        }
        let expiry = match call.timestamp.checked_add(TOKEN_LIFETIME) {
            Some(expiry) => expiry,
            None => {
                return Err(LoyaltyError::Overflow);
            },
        };
        let token = LoyaltyToken {
            id: token_id,
            owner: user,
            points: 0,
            tier: LoyaltyTier::Bronze,
            created_at: call.timestamp,
            updated_at: call.timestamp,
            expiry,
        };
        self.tokens.set(user, token);
        self.log.push(LoyaltyEvent::TokenCreated { token_id, user });
        Ok(token)
    }

    /// Files `after` as the token of `user` and reports the change of tier,
    /// where there is one, and then `last`.
    fn commit_balance(
        &mut self,
        user: Address,
        token: LoyaltyToken,
        after: LoyaltyToken,
        last: LoyaltyEvent,
    )
        ensures
            final(self)@.admin == old(self)@.admin,
            final(self)@.subscriptions == old(self)@.subscriptions,
            final(self)@.tokens == old(self)@.tokens.insert(user, after),
            final(self)@.events == old(self)@.events + crate::loyalty::rules::balance_events(
                token,
                after,
                last,
            ),
    {
        self.tokens.set(user, after);
        if after.tier != token.tier {
            self.log.push(
                LoyaltyEvent::TierChanged { token_id: token.id, user: token.owner, tier: after.tier },
            );
        }
        self.log.push(last);
        assert(final(self)@.events =~= old(self)@.events + crate::loyalty::rules::balance_events(
            token,
            after,
            last,
        ));
    }

    /// Credits `points` to the token of `user`, on behalf of `admin`; the
    /// tier follows the new balance.
    ///
    /// Rejected as `points_added` says: `Unauthorized`, `NotInitialized`,
    /// `NotFound` where the user has no token, `Overflow`.
    pub fn add_points(&mut self, call: &Invocation, user: Address, points: i128, admin: Address) -> (r:
        Result<LoyaltyToken, LoyaltyError>)
        ensures
            r == points_added(old(self)@, *call, user, points, admin).result,
            final(self)@ == points_added(old(self)@, *call, user, points, admin).state,
    {
        if let Some(e) = self.check_admin(call, &admin) {
            return Err(e);
        }
        let token = match self.tokens.get(&user) {
            Some(token) => *token,
            None => {
                return Err(LoyaltyError::NotFound);
            },
        };
        let balance = match token.points.checked_add(points) {
            Some(balance) => balance,
            None => {
                return Err(LoyaltyError::Overflow);
            },
        };
        let after = LoyaltyToken {
            points: balance,
            tier: LoyaltyTier::for_points(balance),
            updated_at: call.timestamp,
            ..token
        };
        self.commit_balance(
            user,
            token,
            after,
            LoyaltyEvent::PointsAdded { token_id: token.id, user, points, balance },
        );
        Ok(after)
    }

    /// Takes `points` off the token of `user`, who makes the call; the tier
    /// follows the new balance.
    ///
    /// Rejected as `points_redeemed` says: `Unauthorized`, `NotInitialized`,
    /// `NotFound`, `InsufficientPoints` where the token holds fewer,
    /// `Overflow`.
    pub fn redeem_points(&mut self, call: &Invocation, user: Address, points: i128) -> (r: Result<
        LoyaltyToken,
        LoyaltyError,
    >)
        ensures
            r == points_redeemed(old(self)@, *call, user, points).result,
            final(self)@ == points_redeemed(old(self)@, *call, user, points).state,
    {
        if let Some(e) = self.check_user(call) {
            return Err(e);
        }
        let token = match self.tokens.get(&user) {
            Some(token) => *token,
            None => {
                return Err(LoyaltyError::NotFound);
            },
        };
        if token.points < points {
            return Err(LoyaltyError::InsufficientPoints);
        }
        let balance = match token.points.checked_sub(points) {
            Some(balance) => balance,
            None => {
                return Err(LoyaltyError::Overflow);
            },
        };
        let after = LoyaltyToken {
            points: balance,
            tier: LoyaltyTier::for_points(balance),
            updated_at: call.timestamp,
            ..token
        };
        self.commit_balance(
            user,
            token,
            after,
            LoyaltyEvent::PointsRedeemed { token_id: token.id, user, points, balance },
        );
        Ok(after)
    }

    /// Starts a subscription of `tier` for `user`, on behalf of `admin`: it
    /// is active for thirty days from now. The subscription is named by the
    /// digest of the user and the time.
    ///
    /// Rejected as `subscription_created` says: `Unauthorized`,
    /// `NotInitialized`, `AlreadyExists` where the user has an active
    /// subscription, `Overflow`.
    pub fn create_subscription(
        &mut self,
        call: &Invocation,
        user: Address,
        tier: LoyaltyTier,
        auto_renew: bool,
        admin: Address,
    ) -> (r: Result<Subscription, LoyaltyError>)
        ensures
            exists|id: [u8; 32]|
                {
                    &&& id@ == stamped_id(user, Seq::<u8>::empty(), call.timestamp)
                    &&& r == (#[trigger] subscription_created(
                        old(self)@,
                        *call,
                        user,
                        tier,
                        auto_renew,
                        admin,
                        id,
                    )).result
                    &&& final(self)@ == subscription_created(
                        old(self)@,
                        *call,
                        user,
                        tier,
                        auto_renew,
                        admin,
                        id,
                    ).state
                },
    {
        let id = new_id(&user, None, call.timestamp);
        self.start_subscription(call, user, tier, auto_renew, admin, id)
    }

    /// Starts a subscription named `subscription_id` for `user`, on behalf of
    /// `admin`.
    pub fn start_subscription(
        &mut self,
        call: &Invocation,
        user: Address,
        tier: LoyaltyTier,
        auto_renew: bool,
        admin: Address,
        subscription_id: [u8; 32],
    ) -> (r: Result<Subscription, LoyaltyError>)
        ensures
            r == subscription_created(
                old(self)@,
                *call,
                user,
                tier,
                auto_renew,
                admin,
                subscription_id,
            ).result,
            final(self)@ == subscription_created(
                old(self)@,
                *call,
                user,
                tier,
                auto_renew,
                admin,
                subscription_id,
            ).state,
    {
        if let Some(e) = self.check_admin(call, &admin) {
            return Err(e);
        }
        if let Some(existing) = self.subscriptions.get(&user) {
            if existing.status == SubscriptionStatus::Active {
                return Err(LoyaltyError::AlreadyExists);
            }
        }
        let end_date = match call.timestamp.checked_add(SUBSCRIPTION_PERIOD) {
            Some(end_date) => end_date,
            None => {
                return Err(LoyaltyError::Overflow);
            },
        };
        let subscription = Subscription {
            id: subscription_id,
            user,
            tier,
            status: SubscriptionStatus::Active,
            start_date: call.timestamp,
            end_date,
            auto_renew,
        };
        self.subscriptions.set(user, subscription);
        self.log.push(LoyaltyEvent::SubscriptionCreated { subscription_id, user, tier });
        Ok(subscription)
    }

    /// Renews the subscription of `user` for thirty days, on behalf of
    /// `admin`: from the end of the running period, or from now where that
    /// has passed. The subscription is active afterwards.
    ///
    /// Rejected as `subscription_renewed` says: `Unauthorized`,
    /// `NotInitialized`, `NotFound`, `InvalidState` where the subscription
    /// was cancelled, `Overflow`.
    pub fn renew_subscription(&mut self, call: &Invocation, user: Address, admin: Address) -> (r:
        Result<Subscription, LoyaltyError>)
        ensures
            r == subscription_renewed(old(self)@, *call, user, admin).result,
            final(self)@ == subscription_renewed(old(self)@, *call, user, admin).state,
    {
        if let Some(e) = self.check_admin(call, &admin) {
            return Err(e);
        }
        let before = match self.subscriptions.get(&user) {
            Some(subscription) => *subscription,
            None => {
                return Err(LoyaltyError::NotFound);
            },
        };
        if before.status == SubscriptionStatus::Cancelled {
            return Err(LoyaltyError::InvalidState);
        }
        let base = if call.timestamp > before.end_date {
            call.timestamp
        } else {
            before.end_date
        };
        let end_date = match base.checked_add(SUBSCRIPTION_PERIOD) {
            Some(end_date) => end_date,
            None => {
                return Err(LoyaltyError::Overflow);
            },
        };
        let after = Subscription { status: SubscriptionStatus::Active, end_date, ..before };
        self.subscriptions.set(user, after);
        self.log.push(
            LoyaltyEvent::SubscriptionRenewed { subscription_id: before.id, user, end_date },
        );
        Ok(after)
    }

    /// Cancels the active subscription of `user`, who makes the call, and
    /// switches its renewal off.
    ///
    /// Rejected as `subscription_cancelled` says: `Unauthorized`,
    /// `NotInitialized`, `NotFound`, `InvalidState` where the subscription
    /// is not active.
    pub fn cancel_subscription(&mut self, call: &Invocation, user: Address) -> (r: Result<
        Subscription,
        LoyaltyError,
    >)
        ensures
            r == subscription_cancelled(old(self)@, *call, user).result,
            final(self)@ == subscription_cancelled(old(self)@, *call, user).state,
    {
        if let Some(e) = self.check_user(call) {
            return Err(e);
        }
        let before = match self.subscriptions.get(&user) {
            Some(subscription) => *subscription,
            None => {
                return Err(LoyaltyError::NotFound);
            },
        };
        if before.status != SubscriptionStatus::Active {
            return Err(LoyaltyError::InvalidState);
        }
        let after = Subscription {
            status: SubscriptionStatus::Cancelled,
            auto_renew: false,
            ..before
        };
        self.subscriptions.set(user, after);
        self.log.push(LoyaltyEvent::SubscriptionCancelled { subscription_id: before.id, user });
        Ok(after)
    }

    /// The token of `user`. Anyone may read it.
    pub fn get_token(&self, user: Address) -> (r: Result<LoyaltyToken, LoyaltyError>)
        ensures
            r == (if self@.admin is None {
                Err::<LoyaltyToken, LoyaltyError>(LoyaltyError::NotInitialized)
            } else if self@.tokens.contains_key(user) {
                Ok(self@.tokens[user])
            } else {
                Err(LoyaltyError::NotFound)
            }),
    {
        if self.admin.is_none() {
            return Err(LoyaltyError::NotInitialized);
        }
        match self.tokens.get(&user) {
            Some(token) => Ok(*token),
            None => Err(LoyaltyError::NotFound),
        }
    }

    /// The subscription of `user`. Anyone may read it.
    pub fn get_subscription(&self, user: Address) -> (r: Result<Subscription, LoyaltyError>)
        ensures
            r == (if self@.admin is None {
                Err::<Subscription, LoyaltyError>(LoyaltyError::NotInitialized)
            } else if self@.subscriptions.contains_key(user) {
                Ok(self@.subscriptions[user])
            } else {
                Err(LoyaltyError::NotFound)
            }),
    {
        if self.admin.is_none() {
            return Err(LoyaltyError::NotInitialized);
        }
        match self.subscriptions.get(&user) {
            Some(subscription) => Ok(*subscription),
            None => Err(LoyaltyError::NotFound),
        }
    }

    /// Whether `user` has a subscription that is active and has not run out
    /// at `now`.
    pub fn is_subscription_active(&self, user: Address, now: u64) -> (r: bool)
        ensures
            r == subscription_active(self@, user, now),
    {
        match self.subscriptions.get(&user) {
            Some(subscription) => subscription.status == SubscriptionStatus::Active && now
                <= subscription.end_date,
            None => false,
        }
    }

    /// The price of thirty days of a subscription of `tier`, in cents.
    /// Rejected as `NotInitialized` where the contract has no admin.
    pub fn get_subscription_price(&self, tier: LoyaltyTier) -> (r: Result<i128, LoyaltyError>)
        ensures
            r == (if self@.admin is None {
                Err::<i128, LoyaltyError>(LoyaltyError::NotInitialized)
            } else {
                Ok(price(tier))
            }),
    {
        if self.admin.is_none() {
            return Err(LoyaltyError::NotInitialized);
        }
        Ok(tier.price())
    }
}

} // verus!
