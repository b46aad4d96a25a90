use vstd::prelude::*;

use crate::domains::consumption_tax::context::ConsumptionTaxFlag;
use crate::flags::FlagSet;
use crate::types::rounding::RoundingStrategy;

verus! {

/// How the consumption tax calculation rounds and decides on the reduced
/// rate; [`StandardConsumptionTaxPolicy`] is the usual choice.
///
/// Users may supply their own policy; nothing is assumed of what its
/// methods return, and the calculation states its result in terms of the
/// answers they give.
pub trait ConsumptionTaxPolicy {
    /// Whether the reduced rate applies under `flags`.
    fn should_apply_reduced_rate(&self, flags: &FlagSet<ConsumptionTaxFlag>) -> bool;

    /// The rounding of the tax amount.
    fn tax_rounding(&self) -> RoundingStrategy;
}

/// The standard reading of the Consumption Tax Act (Article 29; Article 45,
/// fractions of a yen are dropped).
#[derive(Debug, Clone, Copy)]
pub struct StandardConsumptionTaxPolicy;

impl ConsumptionTaxPolicy for StandardConsumptionTaxPolicy {
    /// The reduced rate applies exactly when its flag is given.
    fn should_apply_reduced_rate(&self, flags: &FlagSet<ConsumptionTaxFlag>) -> (r: bool)
        ensures
            r == flags@.contains(ConsumptionTaxFlag::ReducedRate),
    {
        flags.contains(&ConsumptionTaxFlag::ReducedRate)
    }

    /// Fractions of a yen are dropped.
    fn tax_rounding(&self) -> (r: RoundingStrategy)
        ensures
            r == RoundingStrategy::Floor,
    {
        RoundingStrategy::Floor
    }
}

} // verus!
