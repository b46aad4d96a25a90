use vstd::prelude::*;

verus! {

/// The parameters of one tier of the fee schedule.
#[derive(Debug, Clone)]
pub struct TierParam {
    pub label: String,
    pub price_from: u64,
    /// `None` for no upper bound.
    pub price_to_inclusive: Option<u64>,
    pub rate_numer: u64,
    pub rate_denom: u64,
}

/// Parameters of the special rule for low-cost vacant houses.
#[derive(Debug, Clone, Copy)]
pub struct LowCostSpecialParams {
    /// The highest sale price (inclusive) to which the special rule applies.
    pub price_ceiling_inclusive: u64,
    /// The fee limit (excluding tax) that the notice sets.
    ///
    /// Although the notice calls it a ceiling, in the calculation it works as
    /// a guaranteed minimum: a lower regular fee is raised to this value.
    pub fee_ceiling_exclusive_tax: u64,
    /// When `true`, the special rule applies to the seller's side only (the
    /// rule in force from 2018-01-01 to 2024-06-30); when `false`, to both
    /// sides (from 2024-07-01).
    pub seller_only: bool,
}

/// The parameter set of the brokerage fee calculation.
#[derive(Debug, Clone)]
pub struct BrokerageFeeParams {
    pub tiers: Vec<TierParam>,
    pub tax_numer: u64,
    pub tax_denom: u64,
    pub low_cost_special: Option<LowCostSpecialParams>,
}

} // verus!
