use vstd::prelude::*;

verus! {

/// The parameter set of the income deduction calculation.
#[derive(Debug, Clone)]
pub struct IncomeDeductionParams {
    /// Deductions for persons.
    pub personal: PersonalDeductionParams,
    /// Deductions for expenses.
    pub expense: ExpenseDeductionParams,
}

/// Parameters of the deductions for persons.
#[derive(Debug, Clone)]
pub struct PersonalDeductionParams {
    /// Basic deduction (Article 86).
    pub basic: BasicDeductionParams,
    /// Deduction for a spouse (Article 83).
    pub spouse: SpouseDeductionParams,
    /// Deduction for dependents (Article 84).
    pub dependent: DependentDeductionParams,
}

/// Parameters of the basic deduction (Article 86).
#[derive(Debug, Clone)]
pub struct BasicDeductionParams {
    /// The deduction by total income amount.
    pub brackets: Vec<BasicDeductionBracket>,
}

/// One bracket of the basic deduction table.
#[derive(Debug, Clone)]
pub struct BasicDeductionBracket {
    /// Display name of the bracket.
    pub label: String,
    /// Lowest total income amount of the bracket (inclusive).
    pub income_from: u64,
    /// Highest total income amount (inclusive); `None` for none.
    pub income_to_inclusive: Option<u64>,
    /// The basic deduction of this bracket, in yen.
    pub deduction_amount: u64,
}

/// Parameters of the deduction for a spouse (Article 83).
#[derive(Debug, Clone)]
pub struct SpouseDeductionParams {
    /// Highest total income of a qualifying spouse, in yen.
    pub qualifying_spouse_income_max: u64,
    /// The deduction by the taxpayer's total income amount.
    pub taxpayer_income_brackets: Vec<SpouseIncomeBracket>,
}

/// One bracket of the spouse deduction table, by the taxpayer's income.
#[derive(Debug, Clone)]
pub struct SpouseIncomeBracket {
    /// Display name of the bracket.
    pub label: String,
    /// Lowest taxpayer income of the bracket (inclusive).
    pub taxpayer_income_from: u64,
    /// Highest taxpayer income (inclusive); `None` for none.
    pub taxpayer_income_to_inclusive: Option<u64>,
    /// The deduction for a spouse, in yen.
    pub deduction_amount: u64,
    /// The deduction for an elderly spouse, in yen.
    pub elderly_deduction_amount: u64,
}

/// Parameters of the deduction for dependents (Article 84): the amount per
/// dependent of each kind.
#[derive(Debug, Clone, Copy)]
pub struct DependentDeductionParams {
    pub general_deduction_amount: u64,
    pub specific_deduction_amount: u64,
    pub elderly_cohabiting_deduction_amount: u64,
    pub elderly_other_deduction_amount: u64,
}

/// Parameters of the deductions for expenses.
#[derive(Debug, Clone)]
pub struct ExpenseDeductionParams {
    /// Social insurance premiums (Article 74).
    pub social_insurance: SocialInsuranceDeductionParams,
    /// Medical expenses (Article 73).
    pub medical: MedicalDeductionParams,
    /// Life insurance premiums (Article 76).
    pub life_insurance: LifeInsuranceDeductionParams,
    /// Donations (Article 78).
    pub donation: DonationDeductionParams,
}

/// Parameters of the deduction for social insurance premiums (Article 74).
///
/// The premiums are deducted in full, so there is nothing to set.
#[derive(Debug, Clone, Copy)]
pub struct SocialInsuranceDeductionParams;

/// Parameters of the deduction for medical expenses (Article 73).
#[derive(Debug, Clone, Copy)]
pub struct MedicalDeductionParams {
    /// The share of total income that sets the threshold (numerator).
    pub income_threshold_rate_numer: u64,
    /// The share of total income that sets the threshold (denominator).
    pub income_threshold_rate_denom: u64,
    /// The highest threshold, in yen.
    pub threshold_cap_amount: u64,
    /// The highest deduction, in yen.
    pub deduction_cap_amount: u64,
}

/// Parameters of the deduction for life insurance premiums (Article 76).
#[derive(Debug, Clone)]
pub struct LifeInsuranceDeductionParams {
    /// The table for new contracts.
    pub new_contract_brackets: Vec<LifeInsuranceDeductionBracket>,
    /// The table for old contracts.
    pub old_contract_brackets: Vec<LifeInsuranceDeductionBracket>,
    /// Cap of one kind when new and old contracts are both claimed.
    pub mixed_contract_cap_amount: u64,
    /// Cap of one kind under new contracts.
    pub new_contract_cap_amount: u64,
    /// Cap of one kind under old contracts.
    pub old_contract_cap_amount: u64,
    /// Cap of the whole deduction.
    pub combined_cap_amount: u64,
}

/// One bracket of a life insurance deduction table: the deduction is
/// `paid × rate + addition`, at most the cap.
#[derive(Debug, Clone)]
pub struct LifeInsuranceDeductionBracket {
    pub label: String,
    pub paid_from: u64,
    pub paid_to_inclusive: Option<u64>,
    pub rate_numer: u64,
    pub rate_denom: u64,
    pub addition_amount: u64,
    pub deduction_cap_amount: u64,
}

/// Parameters of the deduction for donations (Article 78).
#[derive(Debug, Clone, Copy)]
pub struct DonationDeductionParams {
    /// The share of total income that caps eligible donations (numerator).
    pub income_cap_rate_numer: u64,
    /// The share of total income that caps eligible donations (denominator).
    pub income_cap_rate_denom: u64,
    /// The part the taxpayer bears himself, in yen.
    pub non_deductible_amount: u64,
}

} // verus!
