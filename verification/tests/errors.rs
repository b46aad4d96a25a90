use j_law_core::{CalculationError, InputError, JLawError, RegistryError};

#[test]
fn registry_error_display() {
    let e = RegistryError::PeriodOverlap {
        domain: "real_estate".into(),
        from: "2024-01-01".into(),
        until: "2024-12-31".into(),
    };
    assert!(e.message().contains("real_estate"));
    assert!(e.message().contains("重複"));
}

#[test]
fn input_error_display() {
    let e = InputError::NegativeAmount { value: -100 };
    assert!(e.message().contains("-100"));
}

#[test]
fn invalid_deduction_input_display() {
    let e = InputError::InvalidDeductionInput {
        field: "social_insurance_premium_paid".into(),
        reason: "test".into(),
    };
    assert!(e.message().contains("social_insurance_premium_paid"));
    assert!(e.message().contains("test"));
}

#[test]
fn invalid_withholding_input_display() {
    let e = InputError::InvalidWithholdingInput { field: "category".into(), reason: "unknown".into() };
    assert!(e.message().contains("category"));
    assert!(e.message().contains("unknown"));
}

#[test]
fn calculation_error_display() {
    let e = CalculationError::Overflow { step: "tier1".into() };
    assert!(e.message().contains("tier1"));
}

#[test]
fn jlaw_error_from_input() {
    let inner = InputError::ZeroDenominator;
    let outer: JLawError = inner.into();
    assert!(matches!(outer, JLawError::Input(_)));
}

#[test]
fn jlaw_error_from_calculation() {
    let inner = CalculationError::PolicyNotApplicable { reason: "test".into() };
    let outer: JLawError = inner.into();
    assert!(matches!(outer, JLawError::Calculation(_)));
}

#[test]
fn jlaw_error_message_is_that_of_the_inner_error() {
    let inner = InputError::InvalidStampTaxInput { field: "flags".into(), reason: "bad".into() };
    let text = inner.message();
    let outer: JLawError = inner.into();
    assert_eq!(outer.message(), text);
}
