use vstd::prelude::*;

verus! {

/// One bracket of the income tax rate table.
///
/// Legal basis: Income Tax Act, Article 89, paragraph 1.
#[derive(Debug, Clone)]
pub struct IncomeTaxBracket {
    /// Display name of the bracket (e.g. "195万円以下").
    pub label: String,
    /// Lowest taxable income of the bracket (inclusive).
    pub income_from: u64,
    /// Highest taxable income of the bracket (inclusive); `None` for none.
    pub income_to_inclusive: Option<u64>,
    /// Rate numerator (5% is numer 5).
    pub rate_numer: u64,
    /// Rate denominator (5% is denom 100).
    pub rate_denom: u64,
    /// The deduction of the quick calculation table:
    /// tax = taxable income × rate − deduction.
    pub deduction: u64,
}

/// Parameters of the special income tax for reconstruction.
///
/// Legal basis: Act on Securing Financial Resources for Reconstruction,
/// Article 13; levied on the base income tax of each year from 2013 to 2037.
#[derive(Debug, Clone, Copy)]
pub struct ReconstructionTaxParams {
    /// Rate numerator (2.1% is numer 21).
    pub rate_numer: u64,
    /// Rate denominator (2.1% is denom 1000).
    pub rate_denom: u64,
    /// First year of application (inclusive).
    pub effective_from_year: u16,
    /// Last year of application (inclusive).
    pub effective_to_year_inclusive: u16,
}

/// The parameter set of the income tax calculation.
#[derive(Debug, Clone)]
pub struct IncomeTaxParams {
    /// The rate brackets, from the lowest taxable income up.
    pub brackets: Vec<IncomeTaxBracket>,
    /// The reconstruction tax parameters; `None` outside its period.
    pub reconstruction_tax: Option<ReconstructionTaxParams>,
}

} // verus!
