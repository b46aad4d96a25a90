use vstd::prelude::*;

use crate::types::amount::FinalAmount;

verus! {

/// The kind of an income deduction.
#[derive(Debug, Clone, Copy, PartialEq, Eq, Structural)]
pub enum IncomeDeductionKind {
    /// Basic deduction (Income Tax Act, Article 86).
    Basic,
    /// Deduction for a spouse (Article 83).
    Spouse,
    /// Deduction for dependents (Article 84).
    Dependent,
    /// Deduction for social insurance premiums (Article 74).
    SocialInsurance,
    /// Deduction for medical expenses (Article 73).
    Medical,
    /// Deduction for life insurance premiums (Article 76).
    LifeInsurance,
    /// Deduction for donations (Article 78).
    Donation,
}

/// One line of the income deduction breakdown.
#[derive(Debug, Clone, PartialEq, Eq)]
pub struct IncomeDeductionLine {
    /// The kind of deduction.
    pub kind: IncomeDeductionKind,
    /// The display label.
    pub label: String,
    /// The amount deducted, in yen.
    pub amount: FinalAmount,
}

/// The result of the income deduction calculation.
#[derive(Debug, Clone, PartialEq, Eq)]
pub struct IncomeDeductionResult {
    /// Total income amount, in yen.
    pub total_income_amount: FinalAmount,
    /// Sum of all deductions, in yen.
    pub total_deductions: FinalAmount,
    /// Taxable income before the part below 1,000 yen is dropped.
    pub taxable_income_before_truncation: FinalAmount,
    /// Taxable income with the part below 1,000 yen dropped.
    pub taxable_income: FinalAmount,
    /// The deductions, line by line.
    pub breakdown: Vec<IncomeDeductionLine>,
}

/// The line `l` has the given kind, label and amount.
pub open spec fn line_is(l: IncomeDeductionLine, kind: IncomeDeductionKind, label: Seq<char>, amount: nat) -> bool {
    l.kind == kind && l.label@ == label && l.amount@ == amount
}

} // verus!
