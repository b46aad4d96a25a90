use vstd::prelude::*;

use crate::types::date::LegalDate;

verus! {

/// The input of the income deduction calculation: the total income amount,
/// from which the deductions are taken to give the taxable income.
#[derive(Debug, Clone, Copy)]
pub struct IncomeDeductionContext {
    /// Total income amount, in yen.
    pub total_income_amount: u64,
    /// Reference date of the tax year.
    pub target_date: LegalDate,
    /// The input of each deduction.
    pub deductions: IncomeDeductionInput,
}

/// The inputs of all income deductions.
#[derive(Debug, Clone, Copy, Default)]
pub struct IncomeDeductionInput {
    /// Deductions for persons.
    pub personal: PersonalDeductionInput,
    /// Deductions for expenses.
    pub expense: ExpenseDeductionInput,
}

/// The inputs of the deductions for persons (Articles 83, 84 and 86).
#[derive(Debug, Clone, Copy, Default)]
pub struct PersonalDeductionInput {
    /// The spouse, if the deduction for a spouse is claimed.
    pub spouse: Option<SpouseDeductionInput>,
    /// The dependents.
    pub dependent: DependentDeductionInput,
}

/// The input of the deduction for a spouse (Article 83).
#[derive(Debug, Clone, Copy, PartialEq, Eq)]
pub struct SpouseDeductionInput {
    /// The spouse's total income amount, in yen.
    pub spouse_total_income_amount: u64,
    /// Whether the taxpayer and spouse share a livelihood (the caller's
    /// determination).
    pub is_same_household: bool,
    /// Whether the spouse is an elderly spouse (the caller's determination).
    pub is_elderly: bool,
}

/// The input of the deduction for dependents (Article 84); the counts are
/// the caller's determination.
#[derive(Debug, Clone, Copy, Default, PartialEq, Eq)]
pub struct DependentDeductionInput {
    /// General dependents.
    pub general_count: u16,
    /// Specified dependents.
    pub specific_count: u16,
    /// Elderly dependents living with the taxpayer as parents.
    pub elderly_cohabiting_count: u16,
    /// Other elderly dependents.
    pub elderly_other_count: u16,
}

/// The inputs of the deductions for expenses.
#[derive(Debug, Clone, Copy, Default)]
pub struct ExpenseDeductionInput {
    /// Social insurance premiums paid that qualify (the caller's
    /// determination), in yen.
    pub social_insurance_premium_paid: u64,
    /// Medical expenses, if claimed.
    pub medical: Option<MedicalDeductionInput>,
    /// Life insurance premiums, if claimed.
    pub life_insurance: Option<LifeInsuranceDeductionInput>,
    /// Donations, if claimed.
    pub donation: Option<DonationDeductionInput>,
}

/// The input of the deduction for medical expenses (Article 73).
#[derive(Debug, Clone, Copy, PartialEq, Eq)]
pub struct MedicalDeductionInput {
    /// Medical expenses paid, in yen.
    pub medical_expense_paid: u64,
    /// Amount reimbursed by insurance and the like, in yen.
    pub reimbursed_amount: u64,
}

/// The input of the deduction for life insurance premiums (Article 76).
#[derive(Debug, Clone, Copy, PartialEq, Eq)]
pub struct LifeInsuranceDeductionInput {
    /// General life insurance, new contracts.
    pub new_general_paid_amount: u64,
    /// Individual pension insurance, new contracts.
    pub new_individual_pension_paid_amount: u64,
    /// Care and medical insurance (new contracts only).
    pub new_care_medical_paid_amount: u64,
    /// General life insurance, old contracts.
    pub old_general_paid_amount: u64,
    /// Individual pension insurance, old contracts.
    pub old_individual_pension_paid_amount: u64,
}

/// The input of the deduction for donations (Article 78).
#[derive(Debug, Clone, Copy, PartialEq, Eq)]
pub struct DonationDeductionInput {
    /// Qualified donations, in yen.
    pub qualified_donation_amount: u64,
}

} // verus!
