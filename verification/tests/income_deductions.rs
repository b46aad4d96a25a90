use j_law_core::domains::income_tax::deduction::expense::calculate_expense_deductions;
use j_law_core::domains::income_tax::deduction::personal::calculate_personal_deductions;
use j_law_core::domains::income_tax::{
    calculate_income_deductions, calculate_income_tax_assessment, BasicDeductionBracket,
    BasicDeductionParams, DependentDeductionInput, DependentDeductionParams,
    DonationDeductionInput, DonationDeductionParams, ExpenseDeductionInput, ExpenseDeductionParams,
    IncomeDeductionContext, IncomeDeductionInput, IncomeDeductionKind, IncomeDeductionParams,
    IncomeTaxAssessmentContext, IncomeTaxBracket, IncomeTaxFlag, IncomeTaxParams,
    LifeInsuranceDeductionBracket, LifeInsuranceDeductionInput, LifeInsuranceDeductionParams,
    MedicalDeductionInput, MedicalDeductionParams, PersonalDeductionInput,
    PersonalDeductionParams, ReconstructionTaxParams, SocialInsuranceDeductionParams,
    SpouseDeductionInput, SpouseDeductionParams, SpouseIncomeBracket, StandardIncomeTaxPolicy,
};
use j_law_core::flags::FlagSet;
use j_law_core::types::date::LegalDate;
use j_law_core::{InputError, JLawError};

fn life_bracket(
    label: &str,
    from: u64,
    to: Option<u64>,
    numer: u64,
    denom: u64,
    addition: u64,
    cap: u64,
) -> LifeInsuranceDeductionBracket {
    LifeInsuranceDeductionBracket {
        label: label.into(),
        paid_from: from,
        paid_to_inclusive: to,
        rate_numer: numer,
        rate_denom: denom,
        addition_amount: addition,
        deduction_cap_amount: cap,
    }
}

fn full_params() -> IncomeDeductionParams {
    IncomeDeductionParams {
        personal: PersonalDeductionParams {
            basic: BasicDeductionParams {
                brackets: vec![BasicDeductionBracket {
                    label: "2,400万円以下".into(),
                    income_from: 0,
                    income_to_inclusive: None,
                    deduction_amount: 480_000,
                }],
            },
            spouse: SpouseDeductionParams {
                qualifying_spouse_income_max: 480_000,
                taxpayer_income_brackets: vec![],
            },
            dependent: DependentDeductionParams {
                general_deduction_amount: 380_000,
                specific_deduction_amount: 630_000,
                elderly_cohabiting_deduction_amount: 580_000,
                elderly_other_deduction_amount: 480_000,
            },
        },
        expense: ExpenseDeductionParams {
            social_insurance: SocialInsuranceDeductionParams,
            medical: MedicalDeductionParams {
                income_threshold_rate_numer: 5,
                income_threshold_rate_denom: 100,
                threshold_cap_amount: 100_000,
                deduction_cap_amount: 2_000_000,
            },
            life_insurance: LifeInsuranceDeductionParams {
                new_contract_brackets: vec![life_bracket("8万円超", 0, None, 0, 1, 40_000, 40_000)],
                old_contract_brackets: vec![life_bracket("10万円超", 0, None, 0, 1, 50_000, 50_000)],
                mixed_contract_cap_amount: 40_000,
                new_contract_cap_amount: 40_000,
                old_contract_cap_amount: 50_000,
                combined_cap_amount: 120_000,
            },
            donation: DonationDeductionParams {
                income_cap_rate_numer: 40,
                income_cap_rate_denom: 100,
                non_deductible_amount: 2_000,
            },
        },
    }
}

fn full_ctx(total_income_amount: u64, social_insurance_premium_paid: u64) -> IncomeDeductionContext {
    IncomeDeductionContext {
        total_income_amount,
        target_date: LegalDate::new(2024, 1, 1),
        deductions: IncomeDeductionInput {
            personal: PersonalDeductionInput { spouse: None, dependent: DependentDeductionInput::default() },
            expense: ExpenseDeductionInput {
                social_insurance_premium_paid,
                medical: None,
                life_insurance: None,
                donation: None,
            },
        },
    }
}

#[test]
fn truncates_taxable_income_below_1000() {
    let result = calculate_income_deductions(&full_ctx(481_999, 0), &full_params()).unwrap();
    assert_eq!(result.taxable_income_before_truncation.as_yen(), 1_999);
    assert_eq!(result.taxable_income.as_yen(), 1_000);
}

#[test]
fn taxable_income_does_not_go_below_zero() {
    let result = calculate_income_deductions(&full_ctx(100_000, 30_000), &full_params()).unwrap();
    assert_eq!(result.taxable_income_before_truncation.as_yen(), 0);
    assert_eq!(result.taxable_income.as_yen(), 0);
}

#[test]
fn deductions_come_in_the_order_of_the_statute() {
    let result = calculate_income_deductions(&full_ctx(5_000_000, 700_000), &full_params()).unwrap();
    let kinds: Vec<IncomeDeductionKind> = result.breakdown.iter().map(|l| l.kind).collect();
    assert_eq!(
        kinds,
        vec![
            IncomeDeductionKind::Basic,
            IncomeDeductionKind::Spouse,
            IncomeDeductionKind::Dependent,
            IncomeDeductionKind::SocialInsurance,
            IncomeDeductionKind::Medical,
            IncomeDeductionKind::LifeInsurance,
            IncomeDeductionKind::Donation,
        ]
    );
    assert_eq!(result.total_deductions.as_yen(), 1_180_000);
    assert_eq!(result.taxable_income.as_yen(), 3_820_000);
}

// ---- expense deductions ----

fn expense_params() -> ExpenseDeductionParams {
    ExpenseDeductionParams {
        social_insurance: SocialInsuranceDeductionParams,
        medical: MedicalDeductionParams {
            income_threshold_rate_numer: 5,
            income_threshold_rate_denom: 100,
            threshold_cap_amount: 100_000,
            deduction_cap_amount: 2_000_000,
        },
        life_insurance: LifeInsuranceDeductionParams {
            new_contract_brackets: vec![
                life_bracket("2万円以下", 0, Some(20_000), 1, 1, 0, 20_000),
                life_bracket("2万円超4万円以下", 20_001, Some(40_000), 1, 2, 10_000, 30_000),
                life_bracket("4万円超8万円以下", 40_001, Some(80_000), 1, 4, 20_000, 40_000),
                life_bracket("8万円超", 80_001, None, 0, 1, 40_000, 40_000),
            ],
            old_contract_brackets: vec![
                life_bracket("2万5千円以下", 0, Some(25_000), 1, 1, 0, 25_000),
                life_bracket("2万5千円超5万円以下", 25_001, Some(50_000), 1, 2, 12_500, 37_500),
                life_bracket("5万円超10万円以下", 50_001, Some(100_000), 1, 4, 25_000, 50_000),
                life_bracket("10万円超", 100_001, None, 0, 1, 50_000, 50_000),
            ],
            mixed_contract_cap_amount: 40_000,
            new_contract_cap_amount: 40_000,
            old_contract_cap_amount: 50_000,
            combined_cap_amount: 120_000,
        },
        donation: DonationDeductionParams {
            income_cap_rate_numer: 40,
            income_cap_rate_denom: 100,
            non_deductible_amount: 2_000,
        },
    }
}

fn expense_ctx(expense: ExpenseDeductionInput) -> IncomeDeductionContext {
    IncomeDeductionContext {
        total_income_amount: 5_000_000,
        target_date: LegalDate::new(2024, 1, 1),
        deductions: IncomeDeductionInput {
            personal: PersonalDeductionInput { spouse: None, dependent: DependentDeductionInput::default() },
            expense,
        },
    }
}

fn no_expense() -> ExpenseDeductionInput {
    ExpenseDeductionInput { social_insurance_premium_paid: 0, medical: None, life_insurance: None, donation: None }
}

#[test]
fn social_insurance_deduction_uses_full_paid_amount() {
    let result = calculate_expense_deductions(
        &expense_ctx(ExpenseDeductionInput { social_insurance_premium_paid: 480_900, ..no_expense() }),
        &expense_params(),
    )
    .unwrap();
    assert_eq!(result[0].amount.as_yen(), 480_900);
}

#[test]
fn medical_deduction_uses_five_percent_threshold_for_low_income() {
    let result = calculate_expense_deductions(
        &expense_ctx(ExpenseDeductionInput {
            medical: Some(MedicalDeductionInput { medical_expense_paid: 400_000, reimbursed_amount: 50_000 }),
            ..no_expense()
        }),
        &expense_params(),
    )
    .unwrap();
    assert_eq!(result[1].amount.as_yen(), 250_000);
}

#[test]
fn medical_deduction_rejects_reimbursements_above_paid_amount() {
    let result = calculate_expense_deductions(
        &expense_ctx(ExpenseDeductionInput {
            medical: Some(MedicalDeductionInput { medical_expense_paid: 100_000, reimbursed_amount: 100_001 }),
            ..no_expense()
        }),
        &expense_params(),
    );
    assert!(matches!(result, Err(JLawError::Input(InputError::InvalidDeductionInput { .. }))));
}

#[test]
fn life_insurance_deduction_caps_total_at_120k() {
    let result = calculate_expense_deductions(
        &expense_ctx(ExpenseDeductionInput {
            life_insurance: Some(LifeInsuranceDeductionInput {
                new_general_paid_amount: 100_000,
                new_individual_pension_paid_amount: 100_000,
                new_care_medical_paid_amount: 100_000,
                old_general_paid_amount: 0,
                old_individual_pension_paid_amount: 0,
            }),
            ..no_expense()
        }),
        &expense_params(),
    )
    .unwrap();
    assert_eq!(result[2].amount.as_yen(), 120_000);
}

#[test]
fn donation_deduction_uses_income_cap_and_self_burden() {
    let result = calculate_expense_deductions(
        &expense_ctx(ExpenseDeductionInput {
            donation: Some(DonationDeductionInput { qualified_donation_amount: 3_000_000 }),
            ..no_expense()
        }),
        &expense_params(),
    )
    .unwrap();
    assert_eq!(result[3].amount.as_yen(), 1_998_000);
}

#[test]
fn life_insurance_new_and_old_contracts_are_capped_together() {
    // general: new 30,000 → 25,000; old 30,000 → 27,500; together 52,500 → 40,000.
    let result = calculate_expense_deductions(
        &expense_ctx(ExpenseDeductionInput {
            life_insurance: Some(LifeInsuranceDeductionInput {
                new_general_paid_amount: 30_000,
                new_individual_pension_paid_amount: 0,
                new_care_medical_paid_amount: 0,
                old_general_paid_amount: 30_000,
                old_individual_pension_paid_amount: 0,
            }),
            ..no_expense()
        }),
        &expense_params(),
    )
    .unwrap();
    assert_eq!(result[2].amount.as_yen(), 40_000);
}

#[test]
fn medical_threshold_is_capped_for_high_income() {
    // 5% of 5,000,000 is 250,000, capped at 100,000.
    let result = calculate_expense_deductions(
        &expense_ctx(ExpenseDeductionInput {
            medical: Some(MedicalDeductionInput { medical_expense_paid: 300_000, reimbursed_amount: 0 }),
            ..no_expense()
        }),
        &expense_params(),
    )
    .unwrap();
    assert_eq!(result[1].amount.as_yen(), 200_000);
}

// ---- personal deductions ----

fn personal_params() -> PersonalDeductionParams {
    let basic = |label: &str, from: u64, to: Option<u64>, amount: u64| BasicDeductionBracket {
        label: label.into(),
        income_from: from,
        income_to_inclusive: to,
        deduction_amount: amount,
    };
    let spouse = |label: &str, from: u64, to: Option<u64>, amount: u64, elderly: u64| SpouseIncomeBracket {
        label: label.into(),
        taxpayer_income_from: from,
        taxpayer_income_to_inclusive: to,
        deduction_amount: amount,
        elderly_deduction_amount: elderly,
    };
    PersonalDeductionParams {
        basic: BasicDeductionParams {
            brackets: vec![
                basic("2,400万円以下", 0, Some(24_000_000), 480_000),
                basic("2,400万円超2,450万円以下", 24_000_001, Some(24_500_000), 320_000),
                basic("2,450万円超2,500万円以下", 24_500_001, Some(25_000_000), 160_000),
                basic("2,500万円超", 25_000_001, None, 0),
            ],
        },
        spouse: SpouseDeductionParams {
            qualifying_spouse_income_max: 480_000,
            taxpayer_income_brackets: vec![
                spouse("900万円以下", 0, Some(9_000_000), 380_000, 480_000),
                spouse("900万円超950万円以下", 9_000_001, Some(9_500_000), 260_000, 320_000),
                spouse("950万円超1000万円以下", 9_500_001, Some(10_000_000), 130_000, 160_000),
                spouse("1000万円超", 10_000_001, None, 0, 0),
            ],
        },
        dependent: DependentDeductionParams {
            general_deduction_amount: 380_000,
            specific_deduction_amount: 630_000,
            elderly_cohabiting_deduction_amount: 580_000,
            elderly_other_deduction_amount: 480_000,
        },
    }
}

fn personal_ctx(
    total_income_amount: u64,
    spouse: Option<SpouseDeductionInput>,
    dependent: DependentDeductionInput,
) -> IncomeDeductionContext {
    IncomeDeductionContext {
        total_income_amount,
        target_date: LegalDate::new(2024, 1, 1),
        deductions: IncomeDeductionInput {
            personal: PersonalDeductionInput { spouse, dependent },
            expense: no_expense(),
        },
    }
}

#[test]
fn basic_deduction_thresholds() {
    let cases = [(24_000_000, 480_000), (24_000_001, 320_000), (24_500_001, 160_000), (25_000_001, 0)];
    for (income, expected) in cases {
        let result = calculate_personal_deductions(
            &personal_ctx(income, None, DependentDeductionInput::default()),
            &personal_params(),
        )
        .unwrap();
        assert_eq!(result[0].amount.as_yen(), expected);
    }
}

#[test]
fn spouse_deduction_thresholds() {
    let cases = [(9_000_000, 380_000), (9_000_001, 260_000), (9_500_001, 130_000), (10_000_001, 0)];
    for (income, expected) in cases {
        let result = calculate_personal_deductions(
            &personal_ctx(
                income,
                Some(SpouseDeductionInput {
                    spouse_total_income_amount: 480_000,
                    is_same_household: true,
                    is_elderly: false,
                }),
                DependentDeductionInput::default(),
            ),
            &personal_params(),
        )
        .unwrap();
        assert_eq!(result[1].amount.as_yen(), expected);
    }
}

#[test]
fn dependent_deduction_aggregates_all_categories() {
    let result = calculate_personal_deductions(
        &personal_ctx(
            8_000_000,
            None,
            DependentDeductionInput {
                general_count: 1,
                specific_count: 1,
                elderly_cohabiting_count: 1,
                elderly_other_count: 1,
            },
        ),
        &personal_params(),
    )
    .unwrap();
    assert_eq!(result[2].amount.as_yen(), 2_070_000);
}

#[test]
fn spouse_outside_household_or_above_income_gets_nothing() {
    for spouse in [
        SpouseDeductionInput { spouse_total_income_amount: 480_000, is_same_household: false, is_elderly: false },
        SpouseDeductionInput { spouse_total_income_amount: 480_001, is_same_household: true, is_elderly: false },
    ] {
        let result = calculate_personal_deductions(
            &personal_ctx(5_000_000, Some(spouse), DependentDeductionInput::default()),
            &personal_params(),
        )
        .unwrap();
        assert_eq!(result[1].amount.as_yen(), 0);
    }
}

#[test]
fn elderly_spouse_uses_the_elderly_amount() {
    let result = calculate_personal_deductions(
        &personal_ctx(
            5_000_000,
            Some(SpouseDeductionInput { spouse_total_income_amount: 0, is_same_household: true, is_elderly: true }),
            DependentDeductionInput::default(),
        ),
        &personal_params(),
    )
    .unwrap();
    assert_eq!(result[1].amount.as_yen(), 480_000);
}

// ---- assessment ----

#[test]
fn assessment_runs_deductions_then_tax() {
    let ctx = IncomeTaxAssessmentContext {
        deduction_context: full_ctx(5_480_000, 0),
        flags: {
            let mut f = FlagSet::new();
            f.insert(IncomeTaxFlag::ApplyReconstructionTax);
            f
        },
        policy: StandardIncomeTaxPolicy,
    };
    let tax_params = IncomeTaxParams {
        brackets: vec![IncomeTaxBracket {
            label: "330万円超695万円以下".into(),
            income_from: 0,
            income_to_inclusive: None,
            rate_numer: 20,
            rate_denom: 100,
            deduction: 427_500,
        }],
        reconstruction_tax: Some(ReconstructionTaxParams {
            rate_numer: 21,
            rate_denom: 1000,
            effective_from_year: 2013,
            effective_to_year_inclusive: 2037,
        }),
    };
    let result = calculate_income_tax_assessment(&ctx, &full_params(), &tax_params).unwrap();
    assert_eq!(result.deductions.taxable_income.as_yen(), 5_000_000);
    assert_eq!(result.tax.total_tax.as_yen(), 584_500);
}

#[test]
fn more_social_insurance_premiums_deduct_exactly_the_difference() {
    let r1 = calculate_income_deductions(&full_ctx(5_000_000, 300_000), &full_params()).unwrap();
    let r2 = calculate_income_deductions(&full_ctx(5_000_000, 450_500), &full_params()).unwrap();
    assert_eq!(r2.total_deductions.as_yen(), r1.total_deductions.as_yen() + 150_500);
    assert!(r2.taxable_income.as_yen() <= r1.taxable_income.as_yen());
}

#[test]
fn assessment_passes_on_a_deduction_error() {
    let mut dc = full_ctx(5_000_000, 0);
    dc.deductions.expense.medical =
        Some(MedicalDeductionInput { medical_expense_paid: 1, reimbursed_amount: 2 });
    let ctx = IncomeTaxAssessmentContext { deduction_context: dc, flags: FlagSet::new(), policy: StandardIncomeTaxPolicy };
    let tax_params = IncomeTaxParams { brackets: vec![], reconstruction_tax: None };
    let result = calculate_income_tax_assessment(&ctx, &full_params(), &tax_params);
    assert!(matches!(result, Err(JLawError::Input(InputError::InvalidDeductionInput { .. }))));
}
