use vstd::prelude::*;

use crate::domains::real_estate::context::RealEstateFlag;
use crate::flags::FlagSet;
use crate::types::rounding::RoundingStrategy;

verus! {

/// How the brokerage fee calculation rounds and decides on the special rule
/// for low-cost vacant houses; [`StandardMlitPolicy`] is the usual choice.
///
/// The price threshold of the special rule comes from the parameters, so the
/// calculation checks it; the policy decides on the flags alone. Users may
/// supply their own policy; nothing is assumed of what its methods return,
/// and the calculation states its result in terms of the answers they give.
pub trait RealEstatePolicy {
    /// Whether the flags claim the low-cost special rule.
    fn should_apply_low_cost_special(&self, flags: &FlagSet<RealEstateFlag>) -> bool;

    /// The rounding of each tier's fee.
    fn tier_rounding(&self) -> RoundingStrategy;

    /// The rounding of the consumption tax on the fee.
    fn tax_rounding(&self) -> RoundingStrategy;
}

/// The standard reading of the Ministry of Land, Infrastructure, Transport
/// and Tourism (Article 46, paragraph 1, and its notices).
#[derive(Debug, Clone, Copy)]
pub struct StandardMlitPolicy;

impl RealEstatePolicy for StandardMlitPolicy {
    /// The special rule is claimed exactly when its flag is given.
    fn should_apply_low_cost_special(&self, flags: &FlagSet<RealEstateFlag>) -> (r: bool)
        ensures
            r == flags@.contains(RealEstateFlag::IsLowCostVacantHouse),
    {
        flags.contains(&RealEstateFlag::IsLowCostVacantHouse)
    }

    /// Fractions of a yen are dropped.
    fn tier_rounding(&self) -> (r: RoundingStrategy)
        ensures
            r == RoundingStrategy::Floor,
    {
        RoundingStrategy::Floor
    }

    /// Fractions of a yen are dropped.
    fn tax_rounding(&self) -> (r: RoundingStrategy)
        ensures
            r == RoundingStrategy::Floor,
    {
        RoundingStrategy::Floor
    }
}

} // verus!
