//! Integer codes and limits of the C interface.
use vstd::prelude::*;

use crate::domains::income_tax::deduction::context::{
    DependentDeductionInput, DonationDeductionInput, ExpenseDeductionInput,
    IncomeDeductionContext, IncomeDeductionInput, LifeInsuranceDeductionInput,
    MedicalDeductionInput, PersonalDeductionInput, SpouseDeductionInput,
};
use crate::domains::income_tax::deduction::types::IncomeDeductionKind;
use crate::error::{fails_as, Failure, InputError, JLawError};
use crate::types::date::LegalDate;

verus! {

/// The integer code of a deduction kind in the C interface.
pub open spec fn deduction_kind_code(kind: IncomeDeductionKind) -> u32 {
    match kind {
        IncomeDeductionKind::Basic => 1,
        IncomeDeductionKind::Spouse => 2,
        IncomeDeductionKind::Dependent => 3,
        IncomeDeductionKind::SocialInsurance => 4,
        IncomeDeductionKind::Medical => 5,
        IncomeDeductionKind::LifeInsurance => 6,
        IncomeDeductionKind::Donation => 7,
    }
}

/// The integer code of a deduction kind in the C interface.
pub fn income_deduction_kind_to_c(kind: IncomeDeductionKind) -> (r: u32)
    ensures
        r == deduction_kind_code(kind),
{
    match kind {
        IncomeDeductionKind::Basic => 1,
        IncomeDeductionKind::Spouse => 2,
        IncomeDeductionKind::Dependent => 3,
        IncomeDeductionKind::SocialInsurance => 4,
        IncomeDeductionKind::Medical => 5,
        IncomeDeductionKind::LifeInsurance => 6,
        IncomeDeductionKind::Donation => 7,
    }
}

/// Distinct deduction kinds have distinct codes, from 1 to 7.
pub proof fn lemma_deduction_kind_codes_distinct(a: IncomeDeductionKind, b: IncomeDeductionKind)
    ensures
        deduction_kind_code(a) == deduction_kind_code(b) ==> a == b,
        1 <= deduction_kind_code(a) <= 7,
{
}

/// A count given as `u64`, as the `u16` the calculations take; a count
/// above `u16::MAX` is an input error on the named field.
pub fn try_count_to_u16(value: u64, field: &str) -> (r: Result<u16, JLawError>)
    ensures
        value <= u16::MAX ==> r == Ok::<u16, JLawError>(value as u16),
        value > u16::MAX ==> fails_as(
            r,
            Failure::InvalidDeductionInput(field@, "u16 の上限を超えています"@),
        ),
{
    if value <= 65535 {
        Ok(value as u16)
    } else {
        Err(
            JLawError::Input(
                InputError::InvalidDeductionInput {
                    field: String::from_str(field),
                    reason: String::from_str("u16 の上限を超えています"),
                },
            ),
        )
    }
}

/// The income deduction input of the C interface, as flat fields; a flag
/// field is true when it is not zero.
#[derive(Debug, Clone, Copy)]
pub struct JLawIncomeDeductionInput {
    /// Total income amount, in yen.
    pub total_income_amount: u64,
    /// Year of the reference date.
    pub year: u16,
    /// Month of the reference date.
    pub month: u8,
    /// Day of the reference date.
    pub day: u8,
    /// Whether a spouse deduction input is given.
    pub has_spouse: i32,
    /// The spouse's total income amount, in yen.
    pub spouse_total_income_amount: u64,
    /// Whether the spouse shares the household.
    pub spouse_is_same_household: i32,
    /// Whether the spouse is an elderly qualifying spouse.
    pub spouse_is_elderly: i32,
    /// Number of general dependents.
    pub dependent_general_count: u64,
    /// Number of specific dependents.
    pub dependent_specific_count: u64,
    /// Number of elderly parents living together.
    pub dependent_elderly_cohabiting_count: u64,
    /// Number of other elderly dependents.
    pub dependent_elderly_other_count: u64,
    /// Social insurance premiums paid, in yen.
    pub social_insurance_premium_paid: u64,
    /// Whether a medical deduction input is given.
    pub has_medical: i32,
    /// Medical expenses paid, in yen.
    pub medical_expense_paid: u64,
    /// Amount reimbursed, in yen.
    pub medical_reimbursed_amount: u64,
    /// Whether a life insurance deduction input is given.
    pub has_life_insurance: i32,
    /// General life insurance premiums under new contracts, in yen.
    pub life_new_general_paid_amount: u64,
    /// Individual pension premiums under new contracts, in yen.
    pub life_new_individual_pension_paid_amount: u64,
    /// Care and medical premiums under new contracts, in yen.
    pub life_new_care_medical_paid_amount: u64,
    /// General life insurance premiums under old contracts, in yen.
    pub life_old_general_paid_amount: u64,
    /// Individual pension premiums under old contracts, in yen.
    pub life_old_individual_pension_paid_amount: u64,
    /// Whether a donation deduction input is given.
    pub has_donation: i32,
    /// Qualified donations, in yen.
    pub donation_qualified_amount: u64,
}

/// The deduction context that the flat input describes, when every count
/// fits in `u16`.
pub open spec fn deduction_context_of(input: JLawIncomeDeductionInput) -> IncomeDeductionContext {
    IncomeDeductionContext {
        total_income_amount: input.total_income_amount,
        target_date: LegalDate { year: input.year, month: input.month, day: input.day },
        deductions: IncomeDeductionInput {
            personal: PersonalDeductionInput {
                spouse: if input.has_spouse != 0 {
                    Some(
                        SpouseDeductionInput {
                            spouse_total_income_amount: input.spouse_total_income_amount,
                            is_same_household: input.spouse_is_same_household != 0,
                            is_elderly: input.spouse_is_elderly != 0,
                        },
                    )
                } else {
                    None
                },
                dependent: DependentDeductionInput {
                    general_count: input.dependent_general_count as u16,
                    specific_count: input.dependent_specific_count as u16,
                    elderly_cohabiting_count: input.dependent_elderly_cohabiting_count as u16,
                    elderly_other_count: input.dependent_elderly_other_count as u16,
                },
            },
            expense: ExpenseDeductionInput {
                social_insurance_premium_paid: input.social_insurance_premium_paid,
                medical: if input.has_medical != 0 {
                    Some(
                        MedicalDeductionInput {
                            medical_expense_paid: input.medical_expense_paid,
                            reimbursed_amount: input.medical_reimbursed_amount,
                        },
                    )
                } else {
                    None
                },
                life_insurance: if input.has_life_insurance != 0 {
                    Some(
                        LifeInsuranceDeductionInput {
                            new_general_paid_amount: input.life_new_general_paid_amount,
                            new_individual_pension_paid_amount:
                                input.life_new_individual_pension_paid_amount,
                            new_care_medical_paid_amount: input.life_new_care_medical_paid_amount,
                            old_general_paid_amount: input.life_old_general_paid_amount,
                            old_individual_pension_paid_amount:
                                input.life_old_individual_pension_paid_amount,
                        },
                    )
                } else {
                    None
                },
                donation: if input.has_donation != 0 {
                    Some(
                        DonationDeductionInput {
                            qualified_donation_amount: input.donation_qualified_amount,
                        },
                    )
                } else {
                    None
                },
            },
        },
    }
}

/// The name and value of the first dependent count, in the order of the
/// fields, that does not fit in `u16`.
pub open spec fn oversized_count(input: JLawIncomeDeductionInput) -> Option<Seq<char>> {
    if input.dependent_general_count > u16::MAX {
        Some("dependent.general_count"@)
    } else if input.dependent_specific_count > u16::MAX {
        Some("dependent.specific_count"@)
    } else if input.dependent_elderly_cohabiting_count > u16::MAX {
        Some("dependent.elderly_cohabiting_count"@)
    } else if input.dependent_elderly_other_count > u16::MAX {
        Some("dependent.elderly_other_count"@)
    } else {
        None
    }
}

/// The deduction context of the flat input of the C interface; a dependent
/// count above `u16::MAX` is an input error on its field.
pub fn to_income_deduction_context(input: &JLawIncomeDeductionInput) -> (r: Result<
    IncomeDeductionContext,
    JLawError,
>)
    ensures
        match oversized_count(*input) {
            Some(field) => fails_as(
                r,
                Failure::InvalidDeductionInput(field, "u16 の上限を超えています"@),
            ),
            None => r == Ok::<IncomeDeductionContext, JLawError>(deduction_context_of(*input)),
        },
{
    let spouse = if input.has_spouse != 0 {
        Some(
            SpouseDeductionInput {
                spouse_total_income_amount: input.spouse_total_income_amount,
                is_same_household: input.spouse_is_same_household != 0,
                is_elderly: input.spouse_is_elderly != 0,
            },
        )
    } else {
        None
    };
    let medical = if input.has_medical != 0 {
        Some(
            MedicalDeductionInput {
                medical_expense_paid: input.medical_expense_paid,
                reimbursed_amount: input.medical_reimbursed_amount,
            },
        )
    } else {
        None
    };
    let life_insurance = if input.has_life_insurance != 0 {
        Some(
            LifeInsuranceDeductionInput {
                new_general_paid_amount: input.life_new_general_paid_amount,
                new_individual_pension_paid_amount: input.life_new_individual_pension_paid_amount,
                new_care_medical_paid_amount: input.life_new_care_medical_paid_amount,
                old_general_paid_amount: input.life_old_general_paid_amount,
                old_individual_pension_paid_amount: input.life_old_individual_pension_paid_amount,
            },
        )
    } else {
        None
    };
    let donation = if input.has_donation != 0 {
        Some(DonationDeductionInput { qualified_donation_amount: input.donation_qualified_amount })
    } else {
        None
    };
    proof {
        reveal_strlit("dependent.general_count");
        reveal_strlit("dependent.specific_count");
        reveal_strlit("dependent.elderly_cohabiting_count");
        reveal_strlit("dependent.elderly_other_count");
    }
    let general_count = try_count_to_u16(input.dependent_general_count, "dependent.general_count")?;
    let specific_count = try_count_to_u16(input.dependent_specific_count, "dependent.specific_count")?;
    let elderly_cohabiting_count = try_count_to_u16(
        input.dependent_elderly_cohabiting_count,
        "dependent.elderly_cohabiting_count",
    )?;
    let elderly_other_count = try_count_to_u16(
        input.dependent_elderly_other_count,
        "dependent.elderly_other_count",
    )?;
    Ok(
        IncomeDeductionContext {
            total_income_amount: input.total_income_amount,
            target_date: LegalDate::new(input.year, input.month, input.day),
            deductions: IncomeDeductionInput {
                personal: PersonalDeductionInput {
                    spouse,
                    dependent: DependentDeductionInput {
                        general_count,
                        specific_count,
                        elderly_cohabiting_count,
                        elderly_other_count,
                    },
                },
                expense: ExpenseDeductionInput {
                    social_insurance_premium_paid: input.social_insurance_premium_paid,
                    medical,
                    life_insurance,
                    donation,
                },
            },
        },
    )
}

} // verus!
