//! Events of impact, their totals and what is reported of them.

use vstd::prelude::*;
use crate::identity::Address;

verus! {

/// What an event of impact measures.
#[derive(Clone, Copy, Debug, PartialEq, Eq, Structural)]
pub enum ImpactMetricType {
    MealsSaved,
    /// In hundredths of a kilogram.
    CO2Reduced,
    /// In hundredths of a litre.
    WaterConserved,
    /// In minor currency units.
    MoneyDonated,
}

/// One recorded event of impact.
#[derive(Clone, Copy, Debug, PartialEq, Eq)]
pub struct ImpactEvent {
    pub id: [u8; 32],
    pub user: Address,
    pub vendor: Option<Address>,
    pub metric_type: ImpactMetricType,
    pub amount: i128,
    pub timestamp: u64,
    pub order_id: Option<[u8; 32]>,
}

/// The running totals of one user.
#[derive(Clone, Copy, Debug, PartialEq, Eq)]
pub struct UserImpactSummary {
    pub user: Address,
    pub meals_saved: i128,
    pub co2_reduced: i128,
    pub water_conserved: i128,
    pub money_donated: i128,
    pub last_updated: u64,
}

/// The running totals of the marketplace.
#[derive(Clone, Copy, Debug, PartialEq, Eq, Structural)]
pub struct GlobalImpactSummary {
    pub meals_saved: i128,
    pub co2_reduced: i128,
    pub water_conserved: i128,
    pub money_donated: i128,
    pub total_users: i128,
    pub total_vendors: i128,
    pub last_updated: u64,
}

/// Why a call was rejected. A rejected call changes nothing.
#[derive(Clone, Copy, Debug, PartialEq, Eq, Structural)]
pub enum ImpactError {
    /// The contract has an admin already.
    AlreadyInitialized,
    /// The contract has no admin yet.
    NotInitialized,
    /// The caller's authorization was not proven, or the caller is not the
    /// admin.
    Unauthorized,
    /// A product or a total would leave the range of its type.
    Overflow,
}

/// What the contract reports of a committed call.
#[derive(Clone, Copy, Debug, PartialEq, Eq)]
pub enum ImpactNotice {
    ImpactRecorded {
        event_id: [u8; 32],
        user: Address,
        metric_type: ImpactMetricType,
        amount: i128,
    },
    ConversionFactorsUpdated { meal_to_co2: i128, meal_to_water: i128 },
}

impl ImpactNotice {
    /// The topic under which the notice is published.
    pub open spec fn spec_topic(self) -> Seq<char> {
        match self {
            ImpactNotice::ImpactRecorded { .. } => "impact_recorded"@,
            ImpactNotice::ConversionFactorsUpdated { .. } => "conversion_factors_updated"@,
        }
    }

    pub fn topic(&self) -> (t: &'static str)
        ensures
            t@ == self.spec_topic(),
    {
        match self {
            ImpactNotice::ImpactRecorded { .. } => "impact_recorded",
            ImpactNotice::ConversionFactorsUpdated { .. } => "conversion_factors_updated",
        }
    }
}

} // verus!
