use std::str::FromStr;

use j_law_core::domains::withholding_tax::{
    calculate_withholding_tax, StandardWithholdingTaxPolicy, WithholdingTaxCategory,
    WithholdingTaxCategoryParams, WithholdingTaxContext, WithholdingTaxFlag, WithholdingTaxMethod,
    WithholdingTaxParams,
};
use j_law_core::flags::FlagSet;
use j_law_core::types::date::LegalDate;
use j_law_core::{InputError, JLawError};

fn two_tier() -> WithholdingTaxMethod {
    WithholdingTaxMethod::TwoTier {
        threshold: 1_000_000,
        base_rate_numer: 1021,
        base_rate_denom: 10_000,
        excess_rate_numer: 2042,
        excess_rate_denom: 10_000,
    }
}

fn params() -> WithholdingTaxParams {
    WithholdingTaxParams {
        categories: vec![
            WithholdingTaxCategoryParams {
                category: WithholdingTaxCategory::ManuscriptAndLecture,
                label: "原稿料・講演料等".into(),
                method: two_tier(),
                submission_prize_exemption_threshold: Some(50_000),
            },
            WithholdingTaxCategoryParams {
                category: WithholdingTaxCategory::ProfessionalFee,
                label: "税理士等の報酬".into(),
                method: two_tier(),
                submission_prize_exemption_threshold: None,
            },
        ],
    }
}

fn ctx(
    payment_amount: u64,
    separated: u64,
    category: WithholdingTaxCategory,
    flags: FlagSet<WithholdingTaxFlag>,
) -> WithholdingTaxContext<StandardWithholdingTaxPolicy> {
    WithholdingTaxContext {
        payment_amount,
        separated_consumption_tax_amount: separated,
        category,
        target_date: LegalDate::new(2026, 1, 1),
        flags,
        policy: StandardWithholdingTaxPolicy,
    }
}

#[test]
fn zero_amount_returns_zero() {
    let params = WithholdingTaxParams {
        categories: vec![WithholdingTaxCategoryParams {
            category: WithholdingTaxCategory::ProfessionalFee,
            label: "税理士等の報酬".into(),
            method: two_tier(),
            submission_prize_exemption_threshold: None,
        }],
    };
    let ctx = ctx(0, 0, WithholdingTaxCategory::ProfessionalFee, FlagSet::new());
    let result = calculate_withholding_tax(&ctx, &params).unwrap();
    assert_eq!(result.tax_amount.as_yen(), 0);
    assert_eq!(result.net_payment_amount.as_yen(), 0);
}

#[test]
fn category_string_roundtrip() {
    let category = WithholdingTaxCategory::from_str("professional_fee").unwrap();
    assert_eq!(category, WithholdingTaxCategory::ProfessionalFee);
    assert_eq!(category.as_str(), "professional_fee");
}

#[test]
fn category_ffi_roundtrip() {
    let category = WithholdingTaxCategory::from_ffi_code(3).unwrap();
    assert_eq!(category, WithholdingTaxCategory::ExclusiveContractFee);
    assert_eq!(category.ffi_code(), 3);
}

#[test]
fn context_construction() {
    let ctx = ctx(100_000, 10_000, WithholdingTaxCategory::ManuscriptAndLecture, FlagSet::new());
    assert_eq!(ctx.payment_amount, 100_000);
    assert_eq!(ctx.separated_consumption_tax_amount, 10_000);
}

#[test]
fn params_construction() {
    let params = WithholdingTaxParams {
        categories: vec![WithholdingTaxCategoryParams {
            category: WithholdingTaxCategory::ManuscriptAndLecture,
            label: "原稿料・講演料等".into(),
            method: two_tier(),
            submission_prize_exemption_threshold: Some(50_000),
        }],
    };
    assert_eq!(params.categories.len(), 1);
    assert_eq!(params.categories[0].submission_prize_exemption_threshold, Some(50_000));
}

#[test]
fn below_threshold_uses_the_base_rate() {
    let result = calculate_withholding_tax(
        &ctx(100_000, 0, WithholdingTaxCategory::ProfessionalFee, FlagSet::new()),
        &params(),
    )
    .unwrap();
    assert_eq!(result.tax_amount.as_yen(), 10_210);
    assert_eq!(result.net_payment_amount.as_yen(), 89_790);
    assert_eq!(result.breakdown.len(), 1);
}

#[test]
fn above_threshold_uses_both_rates() {
    let result = calculate_withholding_tax(
        &ctx(1_500_000, 0, WithholdingTaxCategory::ProfessionalFee, FlagSet::new()),
        &params(),
    )
    .unwrap();
    // 1,000,000 × 10.21% + 500,000 × 20.42% = 102,100 + 102,100.
    assert_eq!(result.tax_amount.as_yen(), 204_200);
    assert_eq!(result.breakdown.len(), 2);
    assert_eq!(result.breakdown[0].label, "1000000円以下の部分");
    assert_eq!(result.breakdown[1].label, "1000000円超の部分");
}

#[test]
fn separated_consumption_tax_is_left_out() {
    let result = calculate_withholding_tax(
        &ctx(110_000, 10_000, WithholdingTaxCategory::ProfessionalFee, FlagSet::new()),
        &params(),
    )
    .unwrap();
    assert_eq!(result.taxable_payment_amount.as_yen(), 100_000);
    assert_eq!(result.tax_amount.as_yen(), 10_210);
    assert_eq!(result.net_payment_amount.as_yen(), 99_790);
}

#[test]
fn consumption_tax_above_payment_is_refused() {
    let result = calculate_withholding_tax(
        &ctx(10_000, 20_000, WithholdingTaxCategory::ProfessionalFee, FlagSet::new()),
        &params(),
    );
    assert!(matches!(result, Err(JLawError::Input(InputError::InvalidWithholdingInput { .. }))));
}

#[test]
fn submission_prize_below_threshold_is_exempt() {
    let mut flags = FlagSet::new();
    flags.insert(WithholdingTaxFlag::IsSubmissionPrize);
    let result = calculate_withholding_tax(
        &ctx(50_000, 0, WithholdingTaxCategory::ManuscriptAndLecture, flags),
        &params(),
    )
    .unwrap();
    assert!(result.submission_prize_exempted);
    assert_eq!(result.tax_amount.as_yen(), 0);
    assert_eq!(result.net_payment_amount.as_yen(), 50_000);
}

#[test]
fn submission_prize_above_threshold_is_taxed() {
    let mut flags = FlagSet::new();
    flags.insert(WithholdingTaxFlag::IsSubmissionPrize);
    let result = calculate_withholding_tax(
        &ctx(50_001, 0, WithholdingTaxCategory::ManuscriptAndLecture, flags),
        &params(),
    )
    .unwrap();
    assert!(!result.submission_prize_exempted);
    assert_eq!(result.tax_amount.as_yen(), 5_105);
}

#[test]
fn category_without_params_is_refused() {
    let result = calculate_withholding_tax(
        &ctx(100_000, 0, WithholdingTaxCategory::ExclusiveContractFee, FlagSet::new()),
        &params(),
    );
    assert!(matches!(result, Err(JLawError::Calculation(_))));
}

#[test]
fn unknown_category_code_is_refused() {
    assert!(WithholdingTaxCategory::from_ffi_code(0).is_err());
    assert!(WithholdingTaxCategory::from_ffi_code(4).is_err());
    match WithholdingTaxCategory::from_str("nothing") {
        Err(InputError::InvalidWithholdingInput { field, reason }) => {
            assert_eq!(field, "category");
            assert_eq!(reason, "未知のカテゴリです: nothing");
        }
        _ => panic!("expected an input error"),
    }
}

#[test]
fn category_codes_roundtrip() {
    for c in [
        WithholdingTaxCategory::ManuscriptAndLecture,
        WithholdingTaxCategory::ProfessionalFee,
        WithholdingTaxCategory::ExclusiveContractFee,
    ] {
        assert_eq!(WithholdingTaxCategory::from_str(c.as_str()).unwrap(), c);
        assert_eq!(WithholdingTaxCategory::from_ffi_code(c.ffi_code()).unwrap(), c);
        assert_eq!(u32::from(c), c.ffi_code());
    }
}

#[test]
fn withholding_tax_grows_with_the_payment() {
    let mut last = 0;
    for payment in [0u64, 10_000, 999_999, 1_000_000, 1_000_001, 2_000_000] {
        let r = calculate_withholding_tax(
            &ctx(payment, 0, WithholdingTaxCategory::ProfessionalFee, FlagSet::new()),
            &params(),
        )
        .unwrap();
        assert!(r.tax_amount.as_yen() >= last);
        last = r.tax_amount.as_yen();
    }
}
