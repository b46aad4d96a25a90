use vstd::prelude::*;

use crate::domains::income_tax::context::IncomeTaxFlag;
use crate::flags::FlagSet;
use crate::types::rounding::RoundingStrategy;

verus! {

/// How the income tax calculation rounds and decides on the reconstruction
/// tax; [`StandardIncomeTaxPolicy`] is the usual choice.
///
/// Users may supply their own policy; nothing is assumed of what its
/// methods return, and the calculation states its result in terms of the
/// answers they give.
pub trait IncomeTaxPolicy {
    /// Whether the reconstruction tax applies in `target_year` under `flags`.
    fn should_apply_reconstruction_tax(&self, target_year: u16, flags: &FlagSet<IncomeTaxFlag>) -> bool;

    /// The rounding of taxable income × rate.
    fn tax_rounding(&self) -> RoundingStrategy;

    /// The rounding of the reconstruction tax (base tax × 2.1%).
    fn reconstruction_tax_rounding(&self) -> RoundingStrategy;
}

/// The standard reading of the National Tax Agency: Income Tax Act,
/// Article 89; reconstruction tax act, Article 13; fractions of tax dropped.
#[derive(Debug, Clone, Copy)]
pub struct StandardIncomeTaxPolicy;

impl IncomeTaxPolicy for StandardIncomeTaxPolicy {
    /// The reconstruction tax applies to the tax years 2013 to 2037 when its
    /// flag is given.
    fn should_apply_reconstruction_tax(&self, target_year: u16, flags: &FlagSet<IncomeTaxFlag>) -> (r:
        bool)
        ensures
            r == (2013 <= target_year <= 2037 && flags@.contains(
                IncomeTaxFlag::ApplyReconstructionTax,
            )),
    {
        2013 <= target_year && target_year <= 2037 && flags.contains(
            &IncomeTaxFlag::ApplyReconstructionTax,
        )
    }

    /// The quick table produces no fraction; fractions, should one arise,
    /// are dropped.
    fn tax_rounding(&self) -> (r: RoundingStrategy)
        ensures
            r == RoundingStrategy::Floor,
    {
        RoundingStrategy::Floor
    }

    /// The reconstruction tax drops fractions of a yen.
    fn reconstruction_tax_rounding(&self) -> (r: RoundingStrategy)
        ensures
            r == RoundingStrategy::Floor,
    {
        RoundingStrategy::Floor
    }
}

} // verus!
