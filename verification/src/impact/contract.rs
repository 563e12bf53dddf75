//! The impact contract: its records and the operations on them.

use vstd::prelude::*;
use crate::call::Invocation;
use crate::digest::{new_id, stamped_id};
use crate::identity::Address;
use crate::impact::rules::{
    admin_refusal, by_user, events_of, factors_updated, fits, gain, gain_fits, impact_recorded,
    initialized, latest, metric_tag, takes, totals_of, toward_zero, Gain, ImpactState,
    FACTOR_SCALE, MEAL_TO_CO2, MEAL_TO_WATER,
};
use crate::impact::types::{
    GlobalImpactSummary, ImpactError, ImpactEvent, ImpactMetricType, ImpactNotice,
    UserImpactSummary,
};
use crate::registry::AddressMap;

verus! {

impl ImpactMetricType {
    /// The byte that stands for the metric where an event is named.
    pub fn tag(&self) -> (t: u8)
        ensures
            t == metric_tag(*self),
    {
        match self {
            ImpactMetricType::MealsSaved => 0,
            ImpactMetricType::CO2Reduced => 1,
            ImpactMetricType::WaterConserved => 2,
            ImpactMetricType::MoneyDonated => 3,
        }
    }
}

/// What one event adds to each total.
struct Credit {
    meals: i128,
    co2: i128,
    water: i128,
    money: i128,
}

impl Credit {
    spec fn gain(self) -> Gain {
        Gain {
            meals: self.meals as int,
            co2: self.co2 as int,
            water: self.water as int,
            money: self.money as int,
        }
    }
}

/// `amount` meals by a factor in hundredths, rounded toward zero; `None`
/// where the product is no value of `i128`.
fn converted(amount: i128, factor: i128) -> (r: Option<i128>)
    ensures
        r is Some == fits(amount * factor),
        r matches Some(v) ==> v == toward_zero(amount * factor, FACTOR_SCALE as int),
{
    match amount.checked_mul(factor) {
        Some(product) => product.checked_div(FACTOR_SCALE),
        None => None,
    }
}

/// What an event of `amount` of `metric` adds to each total; `None` where a
/// product is no value of `i128`.
fn measure(metric: ImpactMetricType, amount: i128, meal_to_co2: i128, meal_to_water: i128) -> (r:
    Option<Credit>)
    ensures
        r is Some == gain_fits(metric, amount, meal_to_co2, meal_to_water),
        r matches Some(credit) ==> credit.gain() == gain(
            metric,
            amount,
            meal_to_co2,
            meal_to_water,
        ),
{
    match metric {
        ImpactMetricType::MealsSaved => {
            let co2 = match converted(amount, meal_to_co2) {
                Some(co2) => co2,
                None => {
                    return None;
                },
            };
            let water = match converted(amount, meal_to_water) {
                Some(water) => water,
                None => {
                    return None;
                },
            };
            Some(Credit { meals: amount, co2, water, money: 0 })
        },
        ImpactMetricType::CO2Reduced => Some(Credit { meals: 0, co2: amount, water: 0, money: 0 }),
        ImpactMetricType::WaterConserved => Some(
            Credit { meals: 0, co2: 0, water: amount, money: 0 },
        ),
        ImpactMetricType::MoneyDonated => Some(
            Credit { meals: 0, co2: 0, water: 0, money: amount },
        ),
    }
}

/// The four totals with `credit` counted in; `None` where one of them would
/// be no value of `i128`.
fn counted(meals: i128, co2: i128, water: i128, money: i128, credit: &Credit) -> (r: Option<
    (i128, i128, i128, i128),
>)
    ensures
        r is Some == takes(meals, co2, water, money, credit.gain()),
        r matches Some(t) ==> t.0 == meals + credit.meals && t.1 == co2 + credit.co2 && t.2
            == water + credit.water && t.3 == money + credit.money,
{
    let a = meals.checked_add(credit.meals);
    let b = co2.checked_add(credit.co2);
    let c = water.checked_add(credit.water);
    let d = money.checked_add(credit.money);
    match (a, b, c, d) {
        (Some(a), Some(b), Some(c), Some(d)) => Some((a, b, c, d)),
        _ => None,
    }
}

/// `latest`, told from the newest event down.
spec fn newest(events: Seq<ImpactEvent>, user: Address, limit: nat) -> Seq<ImpactEvent>
    decreases events.len(),
{
    if events.len() == 0 || limit == 0 {
        Seq::empty()
    } else if events.last().user == user {
        seq![events.last()] + newest(events.drop_last(), user, (limit - 1) as nat)
    } else {
        newest(events.drop_last(), user, limit)
    }
}

proof fn lemma_newest(events: Seq<ImpactEvent>, user: Address, limit: nat)
    ensures
        newest(events, user, limit) == latest(events, user, limit),
    decreases events.len(),
{
    let mine = events_of(events, user);
    if events.len() == 0 {
        reveal(Seq::filter);
        assert(mine =~= Seq::empty());
    } else {
        let init = events.drop_last();
        let last = events.last();
        let rest = events_of(init, user);
        assert(events.reverse() =~= seq![last] + init.reverse());
        init.reverse().lemma_filter_prepend(last, by_user(user));
        if limit == 0 {
            assert(mine.take(0) =~= Seq::empty());
        } else if last.user == user {
            lemma_newest(init, user, (limit - 1) as nat);
            assert(mine =~= seq![last] + rest);
            if limit < mine.len() {
                assert(mine.take(limit as int) =~= seq![last] + rest.take(limit - 1));
            }
        } else {
            lemma_newest(init, user, limit);
            assert(mine =~= rest);
        }
    }
}

/// The impact ledger of a marketplace. Every operation either commits as a
/// whole, and then publishes what it did, or is rejected and changes nothing.
pub struct ImpactContract {
    admin: Option<Address>,
    records: Vec<ImpactEvent>,
    summaries: AddressMap<UserImpactSummary>,
    global: GlobalImpactSummary,
    meal_to_co2: i128,
    meal_to_water: i128,
    log: Vec<ImpactNotice>,
}

impl View for ImpactContract {
    type V = ImpactState;

    closed spec fn view(&self) -> ImpactState {
        ImpactState {
            admin: self.admin,
            events: self.records@,
            summaries: self.summaries@,
            global: self.global,
            meal_to_co2: self.meal_to_co2,
            meal_to_water: self.meal_to_water,
            notices: self.log@,
        }
    }
}

impl ImpactContract {
    /// A contract that has not been initialized.
    pub fn new() -> (contract: ImpactContract)
        ensures
            contract@.admin is None,
            contract@.events == Seq::<ImpactEvent>::empty(),
            contract@.summaries == Map::<Address, UserImpactSummary>::empty(),
            contract@.notices == Seq::<ImpactNotice>::empty(),
    {
        ImpactContract {
            admin: None,
            records: Vec::new(),
            summaries: AddressMap::new(),
            global: GlobalImpactSummary {
                meals_saved: 0,
                co2_reduced: 0,
                water_conserved: 0,
                money_donated: 0,
                total_users: 0,
                total_vendors: 0,
                last_updated: 0,
            },
            meal_to_co2: MEAL_TO_CO2,
            meal_to_water: MEAL_TO_WATER,
            log: Vec::new(),
        }
    }

    /// A contract over records kept elsewhere, with nothing published yet.
    pub fn restore(
        admin: Option<Address>,
        events: Vec<ImpactEvent>,
        summaries: AddressMap<UserImpactSummary>,
        global: GlobalImpactSummary,
        meal_to_co2: i128,
        meal_to_water: i128,
    ) -> (contract: ImpactContract)
        ensures
            contract@ == (ImpactState {
                admin,
                events: events@,
                summaries: summaries@,
                global,
                meal_to_co2,
                meal_to_water,
                notices: Seq::<ImpactNotice>::empty(),
            }),
    {
        ImpactContract {
            admin,
            records: events,
            summaries,
            global,
            meal_to_co2,
            meal_to_water,
            log: Vec::new(),
        }
    }

    /// The admin, once the contract is initialized.
    pub fn admin(&self) -> (admin: Option<Address>)
        ensures
            admin == self@.admin,
    {
        self.admin
    }

    /// The recorded events, oldest first.
    pub fn events(&self) -> (events: &Vec<ImpactEvent>)
        ensures
            events@ == self@.events,
    {
        &self.records
    }

    /// The table of users' totals, to read.
    pub fn summaries(&self) -> (summaries: &AddressMap<UserImpactSummary>)
        ensures
            summaries@ == self@.summaries,
    {
        &self.summaries
    }

    /// The conversion factors: carbon dioxide, then water.
    pub fn conversion_factors(&self) -> (factors: (i128, i128))
        ensures
            factors == (self@.meal_to_co2, self@.meal_to_water),
    {
        (self.meal_to_co2, self.meal_to_water)
    }

    /// The notices published so far, oldest first.
    pub fn notices(&self) -> (notices: &Vec<ImpactNotice>)
        ensures
            notices@ == self@.notices,
    {
        &self.log
    }

    fn check_admin(&self, call: &Invocation, admin: &Address) -> (r: Option<ImpactError>)
        ensures
            r == admin_refusal(self@, *call, *admin),
    {
        if !call.authorized {
            return Some(ImpactError::Unauthorized);
        }
        match &self.admin {
            None => Some(ImpactError::NotInitialized),
            Some(stored) => if stored.same(admin) {
                None
            } else {
                Some(ImpactError::Unauthorized)
            },
        }
    }

    /// Makes `admin` the admin at `now`: no events, all totals zero, one
    /// saved meal worth 1.2 kg of carbon dioxide and 1000 l of water.
    /// Rejected as `AlreadyInitialized` where the contract has an admin.
    pub fn initialize(&mut self, admin: Address, now: u64) -> (r: Result<(), ImpactError>)
        ensures
            r == initialized(old(self)@, admin, now).result,
            final(self)@ == initialized(old(self)@, admin, now).state,
    {
        if self.admin.is_some() {
            return Err(ImpactError::AlreadyInitialized);
        }
        self.admin = Some(admin);
        self.records = Vec::new();
        self.summaries = AddressMap::new();
        self.global = GlobalImpactSummary {
            meals_saved: 0,
            co2_reduced: 0,
            water_conserved: 0,
            money_donated: 0,
            total_users: 0,
            total_vendors: 0,
            last_updated: now,
        };
        self.meal_to_co2 = MEAL_TO_CO2;
        self.meal_to_water = MEAL_TO_WATER;
        Ok(())
    }

    /// Records `amount` of `metric_type` by `user`, on behalf of `admin`, and
    /// counts it into the totals of the user and of the marketplace. The
    /// event is named by the digest of the user, the metric and the time.
    ///
    /// Rejected as `impact_recorded` says: `Unauthorized`, `NotInitialized`,
    /// `Overflow` where a product or a total would leave `i128`.
    pub fn record_impact(
        &mut self,
        call: &Invocation,
        user: Address,
        vendor: Option<Address>,
        metric_type: ImpactMetricType,
        amount: i128,
        order_id: Option<[u8; 32]>,
        admin: Address,
    ) -> (r: Result<ImpactEvent, ImpactError>)
        ensures
            exists|id: [u8; 32]|
                {
                    &&& id@ == stamped_id(user, seq![metric_tag(metric_type)], call.timestamp)
                    &&& r == (#[trigger] impact_recorded(
                        old(self)@,
                        *call,
                        user,
                        vendor,
                        metric_type,
                        amount,
                        order_id,
                        admin,
                        id,
                    )).result
                    &&& final(self)@ == impact_recorded(
                        old(self)@,
                        *call,
                        user,
                        vendor,
                        metric_type,
                        amount,
                        order_id,
                        admin,
                        id,
                    ).state
                },
    {
        let id = new_id(&user, Some(metric_type.tag()), call.timestamp);
        self.record_event(call, user, vendor, metric_type, amount, order_id, admin, id)
    }

    /// Records an event named `event_id`: `amount` of `metric_type` by
    /// `user`, on behalf of `admin`.
    pub fn record_event(
        &mut self,
        call: &Invocation,
        user: Address,
        vendor: Option<Address>,
        metric_type: ImpactMetricType,
        amount: i128,
        order_id: Option<[u8; 32]>,
        admin: Address,
        event_id: [u8; 32],
    ) -> (r: Result<ImpactEvent, ImpactError>)
        ensures
            r == impact_recorded(
                old(self)@,
                *call,
                user,
                vendor,
                metric_type,
                amount,
                order_id,
                admin,
                event_id,
            ).result,
            final(self)@ == impact_recorded(
                old(self)@,
                *call,
                user,
                vendor,
                metric_type,
                amount,
                order_id,
                admin,
                event_id,
            ).state,
    {
        if let Some(e) = self.check_admin(call, &admin) {
            return Err(e);
        }
        let now = call.timestamp;
        let credit = match measure(metric_type, amount, self.meal_to_co2, self.meal_to_water) {
            Some(credit) => credit,
            None => {
                return Err(ImpactError::Overflow);
            },
        };
        let before = self.get_user_impact(user, now);
        let mine = match counted(
            before.meals_saved,
            before.co2_reduced,
            before.water_conserved,
            before.money_donated,
            &credit,
        ) {
            Some(totals) => totals,
            None => {
                return Err(ImpactError::Overflow);
            },
        };
        let all = match counted(
            self.global.meals_saved,
            self.global.co2_reduced,
            self.global.water_conserved,
            self.global.money_donated,
            &credit,
        ) {
            Some(totals) => totals,
            None => {
                return Err(ImpactError::Overflow);
            },
        };
        let event = ImpactEvent {
            id: event_id,
            user,
            vendor,
            metric_type,
            amount,
            timestamp: now,
            order_id,
        };
        self.records.push(event);
        self.summaries.set(
            user,
            UserImpactSummary {
                user: before.user,
                meals_saved: mine.0,
                co2_reduced: mine.1,
                water_conserved: mine.2,
                money_donated: mine.3,
                last_updated: now,
            },
        );
        self.global = GlobalImpactSummary {
            meals_saved: all.0,
            co2_reduced: all.1,
            water_conserved: all.2,
            money_donated: all.3,
            total_users: self.global.total_users,
            total_vendors: self.global.total_vendors,
            last_updated: now,
        };
        self.log.push(ImpactNotice::ImpactRecorded { event_id, user, metric_type, amount });
        Ok(event)
    }

    /// The totals of `user`; all zero, as of `now`, where the user has no
    /// event yet. Anyone may read them.
    pub fn get_user_impact(&self, user: Address, now: u64) -> (r: UserImpactSummary)
        ensures
            r == totals_of(self@, user, now),
    {
        match self.summaries.get(&user) {
            Some(summary) => *summary,
            None => UserImpactSummary {
                user,
                meals_saved: 0,
                co2_reduced: 0,
                water_conserved: 0,
                money_donated: 0,
                last_updated: now,
            },
        }
    }

    /// The totals of the marketplace. Rejected as `NotInitialized` where the
    /// contract has no admin.
    pub fn get_global_impact(&self) -> (r: Result<GlobalImpactSummary, ImpactError>)
        ensures
            r == (if self@.admin is None {
                Err::<GlobalImpactSummary, ImpactError>(ImpactError::NotInitialized)
            } else {
                Ok(self@.global)
            }),
    {
        if self.admin.is_none() {
            return Err(ImpactError::NotInitialized);
        }
        Ok(self.global)
    }

    /// The latest events of `user`, newest first, at most `limit` of them.
    pub fn get_user_events(&self, user: Address, limit: u32) -> (r: Vec<ImpactEvent>)
        ensures
            r@ == latest(self@.events, user, limit as nat),
    {
        let mut found: Vec<ImpactEvent> = Vec::new();
        let mut count: u32 = 0;
        let mut i: usize = self.records.len();
        assert(self.records@.take(i as int) =~= self.records@);
        while i > 0 && count < limit
            invariant
                i <= self.records@.len(),
                count <= limit,
                found@ + newest(self.records@.take(i as int), user, (limit - count) as nat)
                    == newest(self.records@, user, limit as nat),
            decreases i,
        {
            let ghost rest = self.records@.take(i as int);
            i -= 1;
            let event = self.records[i];
            assert(rest.last() == event);
            assert(rest.drop_last() =~= self.records@.take(i as int));
            if event.user.same(&user) {
                found.push(event);
                count += 1;
                let ghost tail = newest(self.records@.take(i as int), user, (limit - count) as nat);
                assert(found@ + tail =~= found@.drop_last() + (seq![event] + tail));
            }
        }
        proof {
            assert(found@ + Seq::<ImpactEvent>::empty() =~= found@);
            lemma_newest(self.records@, user, limit as nat);
        }
        found
    }

    /// Sets what one saved meal is worth in carbon dioxide and in water, in
    /// hundredths, on behalf of `admin`.
    ///
    /// Rejected as `factors_updated` says: `Unauthorized`, `NotInitialized`.
    pub fn update_conversion_factors(
        &mut self,
        call: &Invocation,
        meal_to_co2: i128,
        meal_to_water: i128,
        admin: Address,
    ) -> (r: Result<(), ImpactError>)
        ensures
            r == factors_updated(old(self)@, *call, meal_to_co2, meal_to_water, admin).result,
            final(self)@ == factors_updated(
                old(self)@,
                *call,
                meal_to_co2,
                meal_to_water,
                admin,
            ).state,
    {
        if let Some(e) = self.check_admin(call, &admin) {
            return Err(e);
        }
        self.meal_to_co2 = meal_to_co2;
        self.meal_to_water = meal_to_water;
        self.log.push(ImpactNotice::ConversionFactorsUpdated { meal_to_co2, meal_to_water });
        Ok(())
    }
}

} // verus!
