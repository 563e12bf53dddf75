//! The rules of the impact ledger, as mathematics.

use vstd::prelude::*;
use crate::call::Invocation;
use crate::identity::Address;
use crate::impact::types::{
    GlobalImpactSummary, ImpactError, ImpactEvent, ImpactMetricType, ImpactNotice,
    UserImpactSummary,
};

verus! {

/// Hundredths of a kilogram of carbon dioxide that one saved meal avoids, at
/// the start: 1.2 kg.
pub const MEAL_TO_CO2: i128 = 120;

/// Hundredths of a litre of water that one saved meal conserves, at the
/// start: 1000 l.
pub const MEAL_TO_WATER: i128 = 100000;

/// The conversion factors are in hundredths.
pub const FACTOR_SCALE: i128 = 100;

/// Whether `x` is a value of `i128`.
pub open spec fn fits(x: int) -> bool {
    i128::MIN <= x <= i128::MAX
}

/// `x / d` rounded toward zero, for a positive `d`.
pub open spec fn toward_zero(x: int, d: int) -> int {
    if x >= 0 {
        x / d
    } else {
        -((-x) / d)
    }
}

/// The byte that stands for a metric where an event is named.
pub open spec fn metric_tag(metric: ImpactMetricType) -> u8 {
    match metric {
        ImpactMetricType::MealsSaved => 0,
        ImpactMetricType::CO2Reduced => 1,
        ImpactMetricType::WaterConserved => 2,
        ImpactMetricType::MoneyDonated => 3,
    }
}

/// What one event adds to each total.
pub struct Gain {
    pub meals: int,
    pub co2: int,
    pub water: int,
    pub money: int,
}

/// What an event of `amount` of `metric` adds to each total. A saved meal
/// counts toward carbon dioxide and water as well, by the factors.
pub open spec fn gain(metric: ImpactMetricType, amount: i128, meal_to_co2: i128, meal_to_water: i128) -> Gain {
    match metric {
        ImpactMetricType::MealsSaved => Gain {
            meals: amount as int,
            co2: toward_zero(amount * meal_to_co2, FACTOR_SCALE as int),
            water: toward_zero(amount * meal_to_water, FACTOR_SCALE as int),
            money: 0,
        },
        ImpactMetricType::CO2Reduced => Gain { meals: 0, co2: amount as int, water: 0, money: 0 },
        ImpactMetricType::WaterConserved => Gain {
            meals: 0,
            co2: 0,
            water: amount as int,
            money: 0,
        },
        ImpactMetricType::MoneyDonated => Gain { meals: 0, co2: 0, water: 0, money: amount as int },
    }
}

/// Whether the products behind the gain of a saved meal are values of
/// `i128`. Other metrics take no product.
pub open spec fn gain_fits(
    metric: ImpactMetricType,
    amount: i128,
    meal_to_co2: i128,
    meal_to_water: i128,
) -> bool {
    metric == ImpactMetricType::MealsSaved ==> fits(amount * meal_to_co2) && fits(
        amount * meal_to_water,
    )
}

/// Whether the four totals `meals`, `co2`, `water`, `money` can take `g`.
pub open spec fn takes(meals: i128, co2: i128, water: i128, money: i128, g: Gain) -> bool {
    fits(meals + g.meals) && fits(co2 + g.co2) && fits(water + g.water) && fits(money + g.money)
}

/// The totals of a user without events, as read at `now`.
pub open spec fn no_impact(user: Address, now: u64) -> UserImpactSummary {
    UserImpactSummary {
        user,
        meals_saved: 0,
        co2_reduced: 0,
        water_conserved: 0,
        money_donated: 0,
        last_updated: now,
    }
}

/// A user's totals with `g` counted in at `now`.
pub open spec fn user_credited(summary: UserImpactSummary, g: Gain, now: u64) -> UserImpactSummary {
    UserImpactSummary {
        user: summary.user,
        meals_saved: (summary.meals_saved + g.meals) as i128,
        co2_reduced: (summary.co2_reduced + g.co2) as i128,
        water_conserved: (summary.water_conserved + g.water) as i128,
        money_donated: (summary.money_donated + g.money) as i128,
        last_updated: now,
    }
}

/// The marketplace's totals with `g` counted in at `now`.
pub open spec fn global_credited(summary: GlobalImpactSummary, g: Gain, now: u64) -> GlobalImpactSummary {
    GlobalImpactSummary {
        meals_saved: (summary.meals_saved + g.meals) as i128,
        co2_reduced: (summary.co2_reduced + g.co2) as i128,
        water_conserved: (summary.water_conserved + g.water) as i128,
        money_donated: (summary.money_donated + g.money) as i128,
        total_users: summary.total_users,
        total_vendors: summary.total_vendors,
        last_updated: now,
    }
}

/// The contract as its callers and observers see it.
pub struct ImpactState {
    /// The admin, once the contract is initialized.
    pub admin: Option<Address>,
    /// The recorded events, oldest first.
    pub events: Seq<ImpactEvent>,
    pub summaries: Map<Address, UserImpactSummary>,
    pub global: GlobalImpactSummary,
    pub meal_to_co2: i128,
    pub meal_to_water: i128,
    /// The notices published so far, oldest first.
    pub notices: Seq<ImpactNotice>,
}

/// What a call does: the state it leaves and what it returns.
pub struct Outcome<T> {
    pub state: ImpactState,
    pub result: Result<T, ImpactError>,
}

/// The outcome of a call that is rejected.
pub open spec fn rejected<T>(s: ImpactState, e: ImpactError) -> Outcome<T> {
    Outcome { state: s, result: Err(e) }
}

/// Why a call that only the admin may make is refused, if it is.
pub open spec fn admin_refusal(s: ImpactState, call: Invocation, admin: Address) -> Option<
    ImpactError,
> {
    if !call.authorized {
        Some(ImpactError::Unauthorized)
    } else if s.admin is None {
        Some(ImpactError::NotInitialized)
    } else if s.admin != Some(admin) {
        Some(ImpactError::Unauthorized)
    } else {
        None
    }
}

/// Making `admin` the admin of a contract that has none, at `now`: no
/// events, all totals zero, the factors at their start.
pub open spec fn initialized(s: ImpactState, admin: Address, now: u64) -> Outcome<()> {
    if s.admin is Some {
        rejected(s, ImpactError::AlreadyInitialized)
    } else {
        Outcome {
            state: ImpactState {
                admin: Some(admin),
                events: Seq::empty(),
                summaries: Map::empty(),
                global: GlobalImpactSummary {
                    meals_saved: 0,
                    co2_reduced: 0,
                    water_conserved: 0,
                    money_donated: 0,
                    total_users: 0,
                    total_vendors: 0,
                    last_updated: now,
                },
                meal_to_co2: MEAL_TO_CO2,
                meal_to_water: MEAL_TO_WATER,
                notices: s.notices,
            },
            result: Ok(()),
        }
    }
}

/// The totals of `user` in `s`: those on file, or none yet.
pub open spec fn totals_of(s: ImpactState, user: Address, now: u64) -> UserImpactSummary {
    if s.summaries.contains_key(user) {
        s.summaries[user]
    } else {
        no_impact(user, now)
    }
}

/// Recording an event named `id`: `amount` of `metric` by `user`.
pub open spec fn impact_recorded(
    s: ImpactState,
    call: Invocation,
    user: Address,
    vendor: Option<Address>,
    metric: ImpactMetricType,
    amount: i128,
    order_id: Option<[u8; 32]>,
    admin: Address,
    id: [u8; 32],
) -> Outcome<ImpactEvent> {
    let g = gain(metric, amount, s.meal_to_co2, s.meal_to_water);
    let before = totals_of(s, user, call.timestamp);
    if admin_refusal(s, call, admin) is Some {
        rejected(s, admin_refusal(s, call, admin).unwrap())
    } else if !gain_fits(metric, amount, s.meal_to_co2, s.meal_to_water) || !takes(
        before.meals_saved,
        before.co2_reduced,
        before.water_conserved,
        before.money_donated,
        g,
    ) || !takes(
        s.global.meals_saved,
        s.global.co2_reduced,
        s.global.water_conserved,
        s.global.money_donated,
        g,
    ) {
        rejected(s, ImpactError::Overflow)
    } else {
        let event = ImpactEvent {
            id,
            user,
            vendor,
            metric_type: metric,
            amount,
            timestamp: call.timestamp,
            order_id,
        };
        Outcome {
            state: ImpactState {
                events: s.events.push(event),
                summaries: s.summaries.insert(user, user_credited(before, g, call.timestamp)),
                global: global_credited(s.global, g, call.timestamp),
                notices: s.notices.push(
                    ImpactNotice::ImpactRecorded {
                        event_id: id,
                        user,
                        metric_type: metric,
                        amount,
                    },
                ),
                ..s
            },
            result: Ok(event),
        }
    }
}

/// Setting the conversion factors.
pub open spec fn factors_updated(
    s: ImpactState,
    call: Invocation,
    meal_to_co2: i128,
    meal_to_water: i128,
    admin: Address,
) -> Outcome<()> {
    if admin_refusal(s, call, admin) is Some {
        rejected(s, admin_refusal(s, call, admin).unwrap())
    } else {
        Outcome {
            state: ImpactState {
                meal_to_co2,
                meal_to_water,
                notices: s.notices.push(
                    ImpactNotice::ConversionFactorsUpdated { meal_to_co2, meal_to_water },
                ),
                ..s
            },
            result: Ok(()),
        }
    }
}

/// Picks the events of `user`.
pub open spec fn by_user(user: Address) -> spec_fn(ImpactEvent) -> bool {
    |event: ImpactEvent| event.user == user
}

/// The events of `user` among `events`, newest first.
pub open spec fn events_of(events: Seq<ImpactEvent>, user: Address) -> Seq<ImpactEvent> {
    events.reverse().filter(by_user(user))
}

/// The latest events of `user` among `events`, newest first, at most `limit`
/// of them.
pub open spec fn latest(events: Seq<ImpactEvent>, user: Address, limit: nat) -> Seq<ImpactEvent> {
    let mine = events_of(events, user);
    if limit < mine.len() {
        mine.take(limit as int)
    } else {
        mine
    }
}

} // verus!
