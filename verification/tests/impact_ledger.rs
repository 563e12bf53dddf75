use chopnow::call::Invocation;
use chopnow::identity::Address;
use chopnow::impact::{
    GlobalImpactSummary, ImpactContract, ImpactError, ImpactEvent, ImpactMetricType, ImpactNotice,
    UserImpactSummary,
};

fn admin() -> Address {
    Address::account([0xAD; 32])
}

fn user() -> Address {
    Address::account([0x05; 32])
}

fn other() -> Address {
    Address::contract([0x06; 32])
}

fn at(timestamp: u64) -> Invocation {
    Invocation { authorized: true, timestamp }
}

fn ready() -> ImpactContract {
    let mut contract = ImpactContract::new();
    contract.initialize(admin(), 1).unwrap();
    contract
}

#[test]
fn initialize_zeroes_the_totals_once() {
    let mut contract = ImpactContract::new();
    assert_eq!(contract.get_global_impact(), Err(ImpactError::NotInitialized));
    assert_eq!(contract.initialize(admin(), 77), Ok(()));
    assert_eq!(
        contract.get_global_impact(),
        Ok(GlobalImpactSummary {
            meals_saved: 0,
            co2_reduced: 0,
            water_conserved: 0,
            money_donated: 0,
            total_users: 0,
            total_vendors: 0,
            last_updated: 77,
        })
    );
    assert_eq!(contract.conversion_factors(), (120, 100000));
    assert_eq!(contract.initialize(user(), 78), Err(ImpactError::AlreadyInitialized));
    assert_eq!(contract.admin(), Some(admin()));
    assert_eq!(contract.get_global_impact().unwrap().last_updated, 77);
}

#[test]
fn saved_meals_count_toward_co2_and_water() {
    let mut contract = ready();
    let event = contract
        .record_impact(
            &at(10),
            user(),
            Some(other()),
            ImpactMetricType::MealsSaved,
            3,
            Some([4; 32]),
            admin(),
        )
        .unwrap();
    assert_eq!(event.user, user());
    assert_eq!(event.vendor, Some(other()));
    assert_eq!(event.metric_type, ImpactMetricType::MealsSaved);
    assert_eq!(event.amount, 3);
    assert_eq!(event.timestamp, 10);
    assert_eq!(event.order_id, Some([4; 32]));
    assert_eq!(
        contract.get_user_impact(user(), 99),
        UserImpactSummary {
            user: user(),
            meals_saved: 3,
            co2_reduced: 3,
            water_conserved: 3000,
            money_donated: 0,
            last_updated: 10,
        }
    );
    let global = contract.get_global_impact().unwrap();
    assert_eq!(
        (global.meals_saved, global.co2_reduced, global.water_conserved, global.money_donated),
        (3, 3, 3000, 0)
    );
    assert_eq!((global.total_users, global.total_vendors, global.last_updated), (0, 0, 10));
    assert_eq!(contract.events().as_slice(), [event]);
    assert_eq!(
        contract.notices().as_slice(),
        [ImpactNotice::ImpactRecorded {
            event_id: event.id,
            user: user(),
            metric_type: ImpactMetricType::MealsSaved,
            amount: 3
        }]
    );
    assert_eq!(contract.notices()[0].topic(), "impact_recorded");
}

#[test]
fn conversion_rounds_toward_zero() {
    let mut contract = ready();
    contract.update_conversion_factors(&at(2), 33, 150, admin()).unwrap();
    let id = [1; 32];
    contract
        .record_event(&at(3), user(), None, ImpactMetricType::MealsSaved, 5, None, admin(), id)
        .unwrap();
    // 5 * 33 / 100 = 1.65, 5 * 150 / 100 = 7.5
    let summary = contract.get_user_impact(user(), 3);
    assert_eq!((summary.meals_saved, summary.co2_reduced, summary.water_conserved), (5, 1, 7));
    contract
        .record_event(&at(4), other(), None, ImpactMetricType::MealsSaved, -5, None, admin(), id)
        .unwrap();
    let negative = contract.get_user_impact(other(), 4);
    assert_eq!((negative.meals_saved, negative.co2_reduced, negative.water_conserved), (-5, -1, -7));
    let global = contract.get_global_impact().unwrap();
    assert_eq!((global.meals_saved, global.co2_reduced, global.water_conserved), (0, 0, 0));
}

#[test]
fn other_metrics_count_into_their_own_total() {
    let mut contract = ready();
    let id = [1; 32];
    contract
        .record_event(&at(3), user(), None, ImpactMetricType::CO2Reduced, 11, None, admin(), id)
        .unwrap();
    contract
        .record_event(&at(4), user(), None, ImpactMetricType::WaterConserved, 22, None, admin(), id)
        .unwrap();
    contract
        .record_event(&at(5), user(), None, ImpactMetricType::MoneyDonated, 33, None, admin(), id)
        .unwrap();
    contract
        .record_event(&at(6), other(), None, ImpactMetricType::MoneyDonated, 7, None, admin(), id)
        .unwrap();
    assert_eq!(
        contract.get_user_impact(user(), 0),
        UserImpactSummary {
            user: user(),
            meals_saved: 0,
            co2_reduced: 11,
            water_conserved: 22,
            money_donated: 33,
            last_updated: 5,
        }
    );
    let global = contract.get_global_impact().unwrap();
    assert_eq!(
        (global.meals_saved, global.co2_reduced, global.water_conserved, global.money_donated),
        (0, 11, 22, 40)
    );
    assert_eq!(global.last_updated, 6);
    assert_eq!(contract.summaries().entries().len(), 2);
}

#[test]
fn user_without_events_has_no_impact() {
    let contract = ready();
    assert_eq!(
        contract.get_user_impact(user(), 42),
        UserImpactSummary {
            user: user(),
            meals_saved: 0,
            co2_reduced: 0,
            water_conserved: 0,
            money_donated: 0,
            last_updated: 42,
        }
    );
    assert!(contract.get_user_events(user(), 10).is_empty());
}

#[test]
fn only_the_admin_records() {
    let mut contract = ready();
    let unproven = Invocation { authorized: false, timestamp: 3 };
    assert_eq!(
        contract.record_impact(&at(3), user(), None, ImpactMetricType::MealsSaved, 1, None, user()),
        Err(ImpactError::Unauthorized)
    );
    assert_eq!(
        contract.record_impact(&unproven, user(), None, ImpactMetricType::MealsSaved, 1, None, admin()),
        Err(ImpactError::Unauthorized)
    );
    assert_eq!(
        contract.update_conversion_factors(&at(3), 1, 1, user()),
        Err(ImpactError::Unauthorized)
    );
    assert_eq!(
        contract.update_conversion_factors(&unproven, 1, 1, admin()),
        Err(ImpactError::Unauthorized)
    );
    assert_eq!(contract.conversion_factors(), (120, 100000));
    assert!(contract.events().is_empty());
    assert!(contract.notices().is_empty());
    let mut fresh = ImpactContract::new();
    assert_eq!(
        fresh.record_impact(&at(3), user(), None, ImpactMetricType::MealsSaved, 1, None, admin()),
        Err(ImpactError::NotInitialized)
    );
    assert_eq!(
        fresh.update_conversion_factors(&at(3), 1, 1, admin()),
        Err(ImpactError::NotInitialized)
    );
}

#[test]
fn totals_do_not_wrap() {
    let mut contract = ready();
    let id = [1; 32];
    assert_eq!(
        contract.record_event(
            &at(3),
            user(),
            None,
            ImpactMetricType::MealsSaved,
            i128::MAX / 100,
            None,
            admin(),
            id
        ),
        Err(ImpactError::Overflow)
    );
    contract
        .record_event(&at(3), user(), None, ImpactMetricType::MoneyDonated, i128::MAX, None, admin(), id)
        .unwrap();
    assert_eq!(
        contract.record_event(&at(4), user(), None, ImpactMetricType::MoneyDonated, 1, None, admin(), id),
        Err(ImpactError::Overflow)
    );
    // the other user's total has room, the marketplace's has not
    assert_eq!(
        contract.record_event(&at(4), other(), None, ImpactMetricType::MoneyDonated, 1, None, admin(), id),
        Err(ImpactError::Overflow)
    );
    assert_eq!(contract.events().len(), 1);
    assert_eq!(contract.get_user_impact(other(), 9).money_donated, 0);
    assert_eq!(contract.get_global_impact().unwrap().last_updated, 3);
    contract
        .record_event(&at(5), other(), None, ImpactMetricType::MoneyDonated, -1, None, admin(), id)
        .unwrap();
    assert_eq!(contract.get_global_impact().unwrap().money_donated, i128::MAX - 1);
}

#[test]
fn latest_events_come_newest_first() {
    let mut contract = ready();
    let mut mine: Vec<ImpactEvent> = Vec::new();
    for n in 0..5u8 {
        let who = if n == 2 { other() } else { user() };
        let event = contract
            .record_event(
                &at(10 + n as u64),
                who,
                None,
                ImpactMetricType::MoneyDonated,
                n as i128,
                None,
                admin(),
                [n; 32],
            )
            .unwrap();
        if n != 2 {
            mine.push(event);
        }
    }
    mine.reverse();
    assert_eq!(contract.get_user_events(user(), 10), mine);
    assert_eq!(contract.get_user_events(user(), 4), mine);
    assert_eq!(contract.get_user_events(user(), 2), mine[..2].to_vec());
    assert_eq!(contract.get_user_events(user(), 2)[0].amount, 4);
    assert!(contract.get_user_events(user(), 0).is_empty());
    assert_eq!(contract.get_user_events(other(), u32::MAX).len(), 1);
    assert!(contract.get_user_events(admin(), 3).is_empty());
}

#[test]
fn event_id_depends_on_user_metric_and_time() {
    let mut contract = ready();
    let mut record = |who: Address, metric: ImpactMetricType, time: u64| {
        contract.record_impact(&at(time), who, None, metric, 1, None, admin()).unwrap().id
    };
    let base = record(user(), ImpactMetricType::MealsSaved, 5);
    assert_eq!(record(user(), ImpactMetricType::MealsSaved, 5), base);
    assert_ne!(record(other(), ImpactMetricType::MealsSaved, 5), base);
    assert_ne!(record(user(), ImpactMetricType::CO2Reduced, 5), base);
    assert_ne!(record(user(), ImpactMetricType::MealsSaved, 6), base);
    assert_eq!(ImpactMetricType::MealsSaved.tag(), 0);
    assert_eq!(ImpactMetricType::MoneyDonated.tag(), 3);
}

#[test]
fn factors_are_updated_and_announced() {
    let mut contract = ready();
    assert_eq!(contract.update_conversion_factors(&at(2), 200, -50, admin()), Ok(()));
    assert_eq!(contract.conversion_factors(), (200, -50));
    assert_eq!(
        contract.notices().as_slice(),
        [ImpactNotice::ConversionFactorsUpdated { meal_to_co2: 200, meal_to_water: -50 }]
    );
    assert_eq!(contract.notices()[0].topic(), "conversion_factors_updated");
    contract
        .record_event(&at(3), user(), None, ImpactMetricType::MealsSaved, 3, None, admin(), [0; 32])
        .unwrap();
    let summary = contract.get_user_impact(user(), 3);
    assert_eq!((summary.co2_reduced, summary.water_conserved), (6, -1));
}

#[test]
fn restored_contract_carries_its_records() {
    let mut contract = ready();
    contract
        .record_event(&at(3), user(), None, ImpactMetricType::MealsSaved, 100, None, admin(), [0; 32])
        .unwrap();
    let mut summaries = chopnow::registry::AddressMap::new();
    for (who, summary) in contract.summaries().entries() {
        summaries.set(*who, *summary);
    }
    let (co2, water) = contract.conversion_factors();
    let restored = ImpactContract::restore(
        contract.admin(),
        contract.events().clone(),
        summaries,
        contract.get_global_impact().unwrap(),
        co2,
        water,
    );
    assert_eq!(restored.get_user_impact(user(), 0), contract.get_user_impact(user(), 0));
    assert_eq!(restored.get_global_impact(), contract.get_global_impact());
    assert_eq!(restored.get_user_events(user(), 1), contract.get_user_events(user(), 1));
    assert!(restored.notices().is_empty());
}
