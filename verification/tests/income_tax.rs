use j_law_core::domains::income_tax::calculator::truncate_below_100;
use j_law_core::domains::income_tax::{
    calculate_income_tax, IncomeTaxBracket, IncomeTaxContext, IncomeTaxFlag, IncomeTaxParams,
    IncomeTaxPolicy, ReconstructionTaxParams, StandardIncomeTaxPolicy,
};
use j_law_core::flags::FlagSet;
use j_law_core::{CalculationError, JLawError, RoundingStrategy};

fn policy() -> StandardIncomeTaxPolicy {
    StandardIncomeTaxPolicy
}

fn flags_with_reconstruction() -> FlagSet<IncomeTaxFlag> {
    let mut flags = FlagSet::new();
    flags.insert(IncomeTaxFlag::ApplyReconstructionTax);
    flags
}

fn bracket(label: &str, from: u64, to: Option<u64>, numer: u64, deduction: u64) -> IncomeTaxBracket {
    IncomeTaxBracket {
        label: label.into(),
        income_from: from,
        income_to_inclusive: to,
        rate_numer: numer,
        rate_denom: 100,
        deduction,
    }
}

fn params_2024() -> IncomeTaxParams {
    IncomeTaxParams {
        brackets: vec![
            bracket("195万円以下", 0, Some(1_950_000), 5, 0),
            bracket("195万円超330万円以下", 1_950_001, Some(3_300_000), 10, 97_500),
            bracket("330万円超695万円以下", 3_300_001, Some(6_950_000), 20, 427_500),
            bracket("695万円超900万円以下", 6_950_001, Some(9_000_000), 23, 636_000),
            bracket("900万円超1,800万円以下", 9_000_001, Some(18_000_000), 33, 1_536_000),
            bracket("1,800万円超4,000万円以下", 18_000_001, Some(40_000_000), 40, 2_796_000),
            bracket("4,000万円超", 40_000_001, None, 45, 4_796_000),
        ],
        reconstruction_tax: Some(ReconstructionTaxParams {
            rate_numer: 21,
            rate_denom: 1000,
            effective_from_year: 2013,
            effective_to_year_inclusive: 2037,
        }),
    }
}

fn ctx(income: u64, year: u16, flags: FlagSet<IncomeTaxFlag>) -> IncomeTaxContext<StandardIncomeTaxPolicy> {
    IncomeTaxContext { taxable_income: income, target_date: (year, 1, 1), flags, policy: StandardIncomeTaxPolicy }
}

#[test]
fn truncate_below_100_works() {
    assert_eq!(truncate_below_100(0), 0);
    assert_eq!(truncate_below_100(99), 0);
    assert_eq!(truncate_below_100(100), 100);
    assert_eq!(truncate_below_100(199), 100);
    assert_eq!(truncate_below_100(584_522), 584_500);
}

#[test]
fn context_context_construction() {
    let mut flags = FlagSet::new();
    flags.insert(IncomeTaxFlag::ApplyReconstructionTax);
    let ctx = IncomeTaxContext {
        taxable_income: 5_000_000,
        target_date: (2024, 1, 1),
        flags,
        policy: StandardIncomeTaxPolicy,
    };
    assert_eq!(ctx.taxable_income, 5_000_000);
    assert!(ctx.flags.contains(&IncomeTaxFlag::ApplyReconstructionTax));
}

#[test]
fn flag_equality() {
    assert_eq!(IncomeTaxFlag::ApplyReconstructionTax, IncomeTaxFlag::ApplyReconstructionTax,);
}

#[test]
fn bracket_construction() {
    let bracket = IncomeTaxBracket {
        label: "195万円以下".into(),
        income_from: 0,
        income_to_inclusive: Some(1_950_000),
        rate_numer: 5,
        rate_denom: 100,
        deduction: 0,
    };
    assert_eq!(bracket.rate_numer, 5);
    assert_eq!(bracket.rate_denom, 100);
    assert_eq!(bracket.deduction, 0);
}

#[test]
fn params_with_reconstruction_tax() {
    let params = IncomeTaxParams {
        brackets: vec![IncomeTaxBracket {
            label: "195万円以下".into(),
            income_from: 0,
            income_to_inclusive: Some(1_950_000),
            rate_numer: 5,
            rate_denom: 100,
            deduction: 0,
        }],
        reconstruction_tax: Some(ReconstructionTaxParams {
            rate_numer: 21,
            rate_denom: 1000,
            effective_from_year: 2013,
            effective_to_year_inclusive: 2037,
        }),
    };
    assert_eq!(params.brackets.len(), 1);
    let rt = params.reconstruction_tax.as_ref().unwrap();
    assert_eq!(rt.rate_numer, 21);
    assert_eq!(rt.rate_denom, 1000);
}

#[test]
fn params_without_reconstruction_tax() {
    let params = IncomeTaxParams { brackets: vec![], reconstruction_tax: None };
    assert!(params.reconstruction_tax.is_none());
}

#[test]
fn reconstruction_tax_within_period() {
    let flags = flags_with_reconstruction();
    assert!(policy().should_apply_reconstruction_tax(2024, &flags));
    assert!(policy().should_apply_reconstruction_tax(2013, &flags));
    assert!(policy().should_apply_reconstruction_tax(2037, &flags));
}

#[test]
fn reconstruction_tax_outside_period() {
    let flags = flags_with_reconstruction();
    assert!(!policy().should_apply_reconstruction_tax(2012, &flags));
    assert!(!policy().should_apply_reconstruction_tax(2038, &flags));
}

#[test]
fn reconstruction_tax_without_flag() {
    let flags = FlagSet::new();
    assert!(!policy().should_apply_reconstruction_tax(2024, &flags));
}

#[test]
fn rounding_strategies() {
    assert_eq!(policy().tax_rounding(), RoundingStrategy::Floor);
    assert_eq!(policy().reconstruction_tax_rounding(), RoundingStrategy::Floor);
}

#[test]
fn income_tax_five_million_with_reconstruction_tax() {
    let result = calculate_income_tax(&ctx(5_000_000, 2024, flags_with_reconstruction()), &params_2024()).unwrap();
    assert_eq!(result.base_tax.as_yen(), 572_500);
    assert_eq!(result.reconstruction_tax.as_yen(), 12_022);
    assert_eq!(result.total_tax.as_yen(), 584_500);
    assert!(result.reconstruction_tax_applied);
    assert_eq!(result.breakdown.len(), 1);
    assert_eq!(result.breakdown[0].label, "330万円超695万円以下");
}

#[test]
fn income_tax_without_reconstruction_flag() {
    let result = calculate_income_tax(&ctx(5_000_000, 2024, FlagSet::new()), &params_2024()).unwrap();
    assert_eq!(result.base_tax.as_yen(), 572_500);
    assert_eq!(result.reconstruction_tax.as_yen(), 0);
    assert_eq!(result.total_tax.as_yen(), 572_500);
    assert!(!result.reconstruction_tax_applied);
}

#[test]
fn income_tax_zero_income_is_zero() {
    let result = calculate_income_tax(&ctx(0, 2024, flags_with_reconstruction()), &params_2024()).unwrap();
    assert_eq!(result.total_tax.as_yen(), 0);
    assert!(result.breakdown.is_empty());
}

#[test]
fn income_tax_at_bracket_boundaries() {
    let at = |income: u64| {
        calculate_income_tax(&ctx(income, 2024, FlagSet::new()), &params_2024()).unwrap().base_tax.as_yen()
    };
    assert_eq!(at(1_950_000), 97_500);
    assert_eq!(at(1_950_001), 97_500);
    assert_eq!(at(3_300_000), 232_500);
    assert_eq!(at(3_300_001), 232_500);
}

#[test]
fn income_tax_without_bracket_is_refused() {
    let params = IncomeTaxParams { brackets: vec![], reconstruction_tax: None };
    let result = calculate_income_tax(&ctx(1_000, 2024, FlagSet::new()), &params);
    match result {
        Err(JLawError::Calculation(CalculationError::PolicyNotApplicable { reason })) => {
            assert_eq!(reason, "課税所得金額 1000円 に対応する税率ブラケットが見つかりません");
        }
        _ => panic!("expected PolicyNotApplicable"),
    }
}

#[test]
fn reconstruction_flag_without_reconstruction_params_is_refused() {
    let mut params = params_2024();
    params.reconstruction_tax = None;
    let result = calculate_income_tax(&ctx(5_000_000, 2024, flags_with_reconstruction()), &params);
    assert!(matches!(
        result,
        Err(JLawError::Calculation(CalculationError::PolicyNotApplicable { .. }))
    ));
}
