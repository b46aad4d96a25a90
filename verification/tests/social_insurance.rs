use j_law_core::domains::social_insurance::{
    calculate_social_insurance_premium, EmployeeShareRoundingMode,
    PrefectureHealthInsuranceRate, SocialInsuranceContext, SocialInsuranceFlag,
    SocialInsuranceParams, SocialInsurancePolicy, SocialInsurancePrefecture, SocialInsuranceRate,
    StandardNenkinPolicy,
};
use j_law_core::flags::FlagSet;
use j_law_core::types::date::LegalDate;
use j_law_core::JLawError;

fn params() -> SocialInsuranceParams {
    SocialInsuranceParams {
        prefecture_health_rates: vec![PrefectureHealthInsuranceRate {
            prefecture: SocialInsurancePrefecture::Tokyo,
            rate: SocialInsuranceRate { numer: 985, denom: 10_000 },
        }],
        care_rate: SocialInsuranceRate { numer: 162, denom: 10_000 },
        pension_rate: SocialInsuranceRate { numer: 1_830, denom: 10_000 },
        valid_standard_monthly_remunerations: vec![118_000, 150_000, 680_000],
        pension_standard_monthly_remuneration_cap: 650_000,
    }
}

fn ctx<P: SocialInsurancePolicy>(
    standard_monthly_remuneration: u64,
    flags: FlagSet<SocialInsuranceFlag>,
    policy: P,
) -> SocialInsuranceContext<P> {
    SocialInsuranceContext {
        standard_monthly_remuneration,
        target_date: LegalDate::new(2026, 3, 1),
        prefecture: SocialInsurancePrefecture::Tokyo,
        flags,
        policy,
    }
}

#[test]
fn payroll_deduction_floors_exact_half_yen() {
    let result = calculate_social_insurance_premium(
        &ctx(118_000, FlagSet::new(), StandardNenkinPolicy),
        &params(),
    )
    .unwrap();
    assert_eq!(result.health_related_amount.as_yen(), 5_811);
    assert_eq!(result.pension_amount.as_yen(), 10_797);
    assert_eq!(result.total_amount.as_yen(), 16_608);
}

#[derive(Debug)]
struct CashPolicy;

impl SocialInsurancePolicy for CashPolicy {
    fn should_apply_care_insurance(&self, flags: &FlagSet<SocialInsuranceFlag>) -> bool {
        flags.contains(&SocialInsuranceFlag::IsCareInsuranceApplicable)
    }

    fn employee_share_rounding_mode(&self) -> EmployeeShareRoundingMode {
        EmployeeShareRoundingMode::CashPayment
    }
}

#[test]
fn cash_payment_ceils_exact_half_yen() {
    let result =
        calculate_social_insurance_premium(&ctx(118_000, FlagSet::new(), CashPolicy), &params())
            .unwrap();
    assert_eq!(result.health_related_amount.as_yen(), 5_812);
}

#[test]
fn care_rate_is_added_before_rounding() {
    let mut flags = FlagSet::new();
    flags.insert(SocialInsuranceFlag::IsCareInsuranceApplicable);
    let result =
        calculate_social_insurance_premium(&ctx(150_000, flags, StandardNenkinPolicy), &params())
            .unwrap();
    assert_eq!(result.health_related_amount.as_yen(), 8_602);
    assert_eq!(result.total_amount.as_yen(), 22_327);
    assert_eq!(result.breakdown[0].rate_numer, 1_147);
}

#[test]
fn pension_uses_cap() {
    let result = calculate_social_insurance_premium(
        &ctx(680_000, FlagSet::new(), StandardNenkinPolicy),
        &params(),
    )
    .unwrap();
    assert_eq!(result.pension_standard_monthly_remuneration.as_yen(), 650_000);
    assert_eq!(result.pension_amount.as_yen(), 59_475);
}

#[test]
fn standard_policy_applies_care_with_flag() {
    let mut flags = FlagSet::new();
    flags.insert(SocialInsuranceFlag::IsCareInsuranceApplicable);
    assert!(StandardNenkinPolicy.should_apply_care_insurance(&flags));
}

#[test]
fn standard_policy_defaults_to_payroll_deduction() {
    assert_eq!(
        StandardNenkinPolicy.employee_share_rounding_mode(),
        EmployeeShareRoundingMode::PayrollDeduction
    );
}

#[test]
fn standard_policy_without_flag_adds_no_care_premium() {
    assert!(!StandardNenkinPolicy.should_apply_care_insurance(&FlagSet::new()));
}

#[test]
fn unlisted_standard_monthly_remuneration_is_refused() {
    let result = calculate_social_insurance_premium(
        &ctx(120_000, FlagSet::new(), StandardNenkinPolicy),
        &params(),
    );
    assert!(result.is_err());
}

#[test]
fn prefecture_without_rate_is_refused() {
    let mut c = ctx(118_000, FlagSet::new(), StandardNenkinPolicy);
    c.prefecture = SocialInsurancePrefecture::Osaka;
    let result = calculate_social_insurance_premium(&c, &params());
    assert!(matches!(result, Err(JLawError::Calculation(_))));
}

#[test]
fn prefecture_codes_roundtrip() {
    for code in 1u8..=47 {
        let p = SocialInsurancePrefecture::from_code(code).unwrap();
        assert_eq!(p.code(), code);
    }
    assert!(SocialInsurancePrefecture::from_code(0).is_none());
    assert!(SocialInsurancePrefecture::from_code(48).is_none());
}
