use j_law_core::domains::consumption_tax::{
    calculate_consumption_tax, ConsumptionTaxContext, ConsumptionTaxFlag, ConsumptionTaxParams,
    ConsumptionTaxRate, StandardConsumptionTaxPolicy,
};
use j_law_core::flags::FlagSet;
use j_law_core::types::date::LegalDate;
use j_law_core::{CalculationError, JLawError};

fn params_10pct() -> ConsumptionTaxParams {
    ConsumptionTaxParams {
        standard_rate: ConsumptionTaxRate { numer: 10, denom: 100 },
        reduced_rate: Some(ConsumptionTaxRate { numer: 8, denom: 100 }),
    }
}

fn ctx_standard(amount: u64) -> ConsumptionTaxContext<StandardConsumptionTaxPolicy> {
    ConsumptionTaxContext {
        amount,
        target_date: LegalDate::new(2020, 1, 1),
        flags: FlagSet::new(),
        policy: StandardConsumptionTaxPolicy,
    }
}

fn ctx_reduced(amount: u64) -> ConsumptionTaxContext<StandardConsumptionTaxPolicy> {
    let mut flags = FlagSet::new();
    flags.insert(ConsumptionTaxFlag::ReducedRate);
    ConsumptionTaxContext {
        amount,
        target_date: LegalDate::new(2020, 1, 1),
        flags,
        policy: StandardConsumptionTaxPolicy,
    }
}

#[test]
fn standard_10pct() {
    let result = calculate_consumption_tax(&ctx_standard(100_000), &params_10pct()).unwrap();
    assert_eq!(result.tax_amount.as_yen(), 10_000);
    assert_eq!(result.amount_with_tax.as_yen(), 110_000);
    assert_eq!(result.amount_without_tax.as_yen(), 100_000);
    assert!(!result.is_reduced_rate);
}

#[test]
fn reduced_8pct() {
    let result = calculate_consumption_tax(&ctx_reduced(100_000), &params_10pct()).unwrap();
    assert_eq!(result.tax_amount.as_yen(), 8_000);
    assert_eq!(result.amount_with_tax.as_yen(), 108_000);
    assert!(result.is_reduced_rate);
}

#[test]
fn floor_rounding() {
    let result = calculate_consumption_tax(&ctx_standard(100_001), &params_10pct()).unwrap();
    assert_eq!(result.tax_amount.as_yen(), 10_000);
}

#[test]
fn zero_amount() {
    let result = calculate_consumption_tax(&ctx_standard(0), &params_10pct()).unwrap();
    assert_eq!(result.tax_amount.as_yen(), 0);
    assert_eq!(result.amount_with_tax.as_yen(), 0);
}

#[test]
fn zero_rate_no_tax() {
    let params = ConsumptionTaxParams {
        standard_rate: ConsumptionTaxRate { numer: 0, denom: 100 },
        reduced_rate: None,
    };
    let result = calculate_consumption_tax(&ctx_standard(100_000), &params).unwrap();
    assert_eq!(result.tax_amount.as_yen(), 0);
    assert_eq!(result.amount_with_tax.as_yen(), 100_000);
}

#[test]
fn reduced_flag_without_reduced_rate_is_error() {
    let params = ConsumptionTaxParams {
        standard_rate: ConsumptionTaxRate { numer: 8, denom: 100 },
        reduced_rate: None,
    };
    let result = calculate_consumption_tax(&ctx_reduced(100_000), &params);
    assert!(matches!(
        result,
        Err(JLawError::Calculation(CalculationError::PolicyNotApplicable { .. }))
    ));
}

#[test]
fn reduced_flag_without_reduced_rate_names_the_date() {
    let params = ConsumptionTaxParams {
        standard_rate: ConsumptionTaxRate { numer: 3, denom: 100 },
        reduced_rate: None,
    };
    match calculate_consumption_tax(&ctx_reduced(100_000), &params) {
        Err(JLawError::Calculation(CalculationError::PolicyNotApplicable { reason })) => {
            assert_eq!(
                reason,
                "軽減税率フラグが指定されましたが、対象日(2020-01-01)の消費税パラメータに軽減税率が存在しません"
            );
        }
        _ => panic!("expected PolicyNotApplicable"),
    }
}

#[test]
fn zero_denominator_is_refused() {
    let params = ConsumptionTaxParams {
        standard_rate: ConsumptionTaxRate { numer: 10, denom: 0 },
        reduced_rate: None,
    };
    let result = calculate_consumption_tax(&ctx_standard(100), &params);
    assert!(matches!(result, Err(JLawError::Input(j_law_core::InputError::ZeroDenominator))));
}

#[test]
fn overflowing_product_is_refused() {
    let result = calculate_consumption_tax(&ctx_standard(u64::MAX), &params_10pct());
    assert!(matches!(result, Err(JLawError::Calculation(CalculationError::Overflow { .. }))));
}

#[test]
fn amount_with_tax_is_amount_plus_tax() {
    let result = calculate_consumption_tax(&ctx_standard(12_345), &params_10pct()).unwrap();
    assert_eq!(result.tax_amount.as_yen(), 1_234);
    assert_eq!(result.amount_with_tax.as_yen(), 12_345 + 1_234);
    assert_eq!(result.applied_rate_numer, 10);
    assert_eq!(result.applied_rate_denom, 100);
}
