use vstd::prelude::*;

verus! {

/// A consumption tax rate as numerator and denominator.
#[derive(Debug, Clone, Copy, PartialEq, Eq, Structural)]
pub struct ConsumptionTaxRate {
    pub numer: u64,
    pub denom: u64,
}

/// Parameters of the consumption tax calculation.
///
/// Legal basis: Consumption Tax Act, Article 29.
///
/// Rates over time: 3% (1989-04-01 to 1997-03-31), 5% (to 2014-03-31),
/// 8% (to 2019-09-30), 10% standard and 8% reduced (from 2019-10-01).
#[derive(Debug, Clone, Copy)]
pub struct ConsumptionTaxParams {
    /// The standard rate.
    pub standard_rate: ConsumptionTaxRate,
    /// The reduced rate (food and newspapers from 2019-10-01); `None` before.
    pub reduced_rate: Option<ConsumptionTaxRate>,
}

} // verus!
