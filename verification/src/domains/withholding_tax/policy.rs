use vstd::prelude::*;

use crate::domains::withholding_tax::context::{WithholdingTaxCategory, WithholdingTaxFlag};
use crate::flags::FlagSet;
use crate::types::rounding::RoundingStrategy;

verus! {

/// How the withholding tax calculation rounds and decides on the contest
/// prize exemption; [`StandardWithholdingTaxPolicy`] is the usual choice.
///
/// Users may supply their own policy; nothing is assumed of what its
/// methods return, and the calculation states its result in terms of the
/// answers they give.
pub trait WithholdingTaxPolicy {
    /// The rounding of each tier's tax.
    fn tax_rounding(&self) -> RoundingStrategy;

    /// Whether the contest prize exemption applies.
    fn should_apply_submission_prize_exemption(
        &self,
        category: WithholdingTaxCategory,
        taxable_payment_amount: u64,
        flags: &FlagSet<WithholdingTaxFlag>,
        exemption_threshold: Option<u64>,
    ) -> bool;
}

/// The standard reading of the National Tax Agency (Income Tax Act,
/// Article 204, paragraph 1; reconstruction tax act).
#[derive(Debug, Clone, Copy)]
pub struct StandardWithholdingTaxPolicy;

impl WithholdingTaxPolicy for StandardWithholdingTaxPolicy {
    /// Fractions of a yen are dropped.
    fn tax_rounding(&self) -> (r: RoundingStrategy)
        ensures
            r == RoundingStrategy::Floor,
    {
        RoundingStrategy::Floor
    }

    /// A manuscript or lecture fee given as a contest prize is exempt up to
    /// the threshold.
    fn should_apply_submission_prize_exemption(
        &self,
        category: WithholdingTaxCategory,
        taxable_payment_amount: u64,
        flags: &FlagSet<WithholdingTaxFlag>,
        exemption_threshold: Option<u64>,
    ) -> (r: bool)
        ensures
            r == {
                &&& category == WithholdingTaxCategory::ManuscriptAndLecture
                &&& flags@.contains(WithholdingTaxFlag::IsSubmissionPrize)
                &&& exemption_threshold matches Some(t) && taxable_payment_amount <= t
            },
    {
        category == WithholdingTaxCategory::ManuscriptAndLecture && flags.contains(
            &WithholdingTaxFlag::IsSubmissionPrize,
        ) && match exemption_threshold {
            Some(threshold) => taxable_payment_amount <= threshold,
            None => false,
        }
    }
}

} // verus!
