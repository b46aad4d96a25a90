use vstd::prelude::*;

use crate::domains::withholding_tax::context::WithholdingTaxCategory;

verus! {

/// The method of calculating the withholding of a category (Income Tax
/// Act, Article 204, paragraph 1).
#[derive(Debug, Clone, Copy)]
pub enum WithholdingTaxMethod {
    /// Two tiers: one rate up to the threshold (one million yen) and another
    /// above it; 10.21% and 20.42% per the National Tax Agency as of
    /// 2026-03-11.
    TwoTier {
        threshold: u64,
        base_rate_numer: u64,
        base_rate_denom: u64,
        excess_rate_numer: u64,
        excess_rate_denom: u64,
    },
}

/// The parameters of one withholding category.
#[derive(Debug, Clone)]
pub struct WithholdingTaxCategoryParams {
    /// The category.
    pub category: WithholdingTaxCategory,
    /// The display label.
    pub label: String,
    /// The method of calculation.
    pub method: WithholdingTaxMethod,
    /// The threshold of the contest prize exemption; `None` for categories
    /// without one.
    pub submission_prize_exemption_threshold: Option<u64>,
}

/// The parameter set of the withholding tax calculation.
#[derive(Debug, Clone)]
pub struct WithholdingTaxParams {
    /// The parameters of each category.
    pub categories: Vec<WithholdingTaxCategoryParams>,
}

} // verus!
