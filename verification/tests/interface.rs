use j_law_core::domains::income_tax::IncomeDeductionKind;
use j_law_core::interface::{
    income_deduction_kind_to_c, to_income_deduction_context, try_count_to_u16,
    JLawIncomeDeductionInput,
};
use j_law_core::{InputError, JLawError};

#[test]
fn deduction_kind_codes() {
    let kinds = [
        IncomeDeductionKind::Basic,
        IncomeDeductionKind::Spouse,
        IncomeDeductionKind::Dependent,
        IncomeDeductionKind::SocialInsurance,
        IncomeDeductionKind::Medical,
        IncomeDeductionKind::LifeInsurance,
        IncomeDeductionKind::Donation,
    ];
    for (i, k) in kinds.iter().enumerate() {
        assert_eq!(income_deduction_kind_to_c(*k), i as u32 + 1);
    }
}

#[test]
fn counts_within_u16_pass() {
    assert_eq!(try_count_to_u16(0, "dependent.general_count").unwrap(), 0);
    assert_eq!(try_count_to_u16(65_535, "dependent.general_count").unwrap(), 65_535);
}

#[test]
fn counts_above_u16_are_refused() {
    match try_count_to_u16(65_536, "dependent.general_count") {
        Err(JLawError::Input(InputError::InvalidDeductionInput { field, reason })) => {
            assert_eq!(field, "dependent.general_count");
            assert_eq!(reason, "u16 の上限を超えています");
        }
        _ => panic!("expected an input error"),
    }
}

fn flat_input() -> JLawIncomeDeductionInput {
    JLawIncomeDeductionInput {
        total_income_amount: 5_000_000,
        year: 2024,
        month: 12,
        day: 31,
        has_spouse: 1,
        spouse_total_income_amount: 300_000,
        spouse_is_same_household: 1,
        spouse_is_elderly: 0,
        dependent_general_count: 2,
        dependent_specific_count: 1,
        dependent_elderly_cohabiting_count: 0,
        dependent_elderly_other_count: 0,
        social_insurance_premium_paid: 700_000,
        has_medical: 0,
        medical_expense_paid: 123,
        medical_reimbursed_amount: 0,
        has_life_insurance: 1,
        life_new_general_paid_amount: 80_000,
        life_new_individual_pension_paid_amount: 0,
        life_new_care_medical_paid_amount: 0,
        life_old_general_paid_amount: 0,
        life_old_individual_pension_paid_amount: 0,
        has_donation: 0,
        donation_qualified_amount: 0,
    }
}

#[test]
fn flat_input_becomes_a_deduction_context() {
    let ctx = to_income_deduction_context(&flat_input()).unwrap();
    assert_eq!(ctx.total_income_amount, 5_000_000);
    assert_eq!(ctx.target_date.to_date_str(), "2024-12-31");
    let spouse = ctx.deductions.personal.spouse.unwrap();
    assert_eq!(spouse.spouse_total_income_amount, 300_000);
    assert!(spouse.is_same_household);
    assert!(!spouse.is_elderly);
    assert_eq!(ctx.deductions.personal.dependent.general_count, 2);
    assert_eq!(ctx.deductions.personal.dependent.specific_count, 1);
    assert_eq!(ctx.deductions.expense.social_insurance_premium_paid, 700_000);
    assert!(ctx.deductions.expense.medical.is_none());
    assert_eq!(ctx.deductions.expense.life_insurance.unwrap().new_general_paid_amount, 80_000);
    assert!(ctx.deductions.expense.donation.is_none());
}

#[test]
fn oversized_dependent_count_names_its_field() {
    let mut input = flat_input();
    input.dependent_elderly_cohabiting_count = 70_000;
    match to_income_deduction_context(&input) {
        Err(JLawError::Input(InputError::InvalidDeductionInput { field, reason })) => {
            assert_eq!(field, "dependent.elderly_cohabiting_count");
            assert_eq!(reason, "u16 の上限を超えています");
        }
        _ => panic!("expected an input error"),
    }
}
