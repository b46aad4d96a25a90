use j_law_core::domains::real_estate::calculator::compute_tier_base;
use j_law_core::domains::real_estate::{
    calculate_brokerage_fee, BrokerageFeeParams, LowCostSpecialParams, RealEstateContext,
    RealEstateFlag, StandardMlitPolicy, TierParam,
};
use j_law_core::flags::FlagSet;
use j_law_core::types::date::LegalDate;
use j_law_core::{CalculationError, JLawError};

#[test]
fn tier_base_tier1_under() {
    assert_eq!(compute_tier_base(1_000_000, 0, Some(2_000_000)), 1_000_000);
}

#[test]
fn tier_base_tier1_at_boundary() {
    assert_eq!(compute_tier_base(2_000_000, 0, Some(2_000_000)), 2_000_000);
}

#[test]
fn tier_base_tier1_over() {
    assert_eq!(compute_tier_base(5_000_000, 0, Some(2_000_000)), 2_000_000);
}

#[test]
fn tier_base_tier2_base() {
    assert_eq!(compute_tier_base(5_000_000, 2_000_001, Some(4_000_000)), 2_000_000);
}

#[test]
fn tier_base_price_below_from() {
    assert_eq!(compute_tier_base(1_000_000, 2_000_001, Some(4_000_000)), 0);
}

#[test]
fn tier_base_no_ceiling() {
    assert_eq!(compute_tier_base(5_000_000, 4_000_001, None), 1_000_000);
}

fn tier(label: &str, from: u64, to: Option<u64>, numer: u64) -> TierParam {
    TierParam {
        label: label.into(),
        price_from: from,
        price_to_inclusive: to,
        rate_numer: numer,
        rate_denom: 100,
    }
}

fn params(low_cost_special: Option<LowCostSpecialParams>) -> BrokerageFeeParams {
    BrokerageFeeParams {
        tiers: vec![
            tier("200万円以下の部分", 0, Some(2_000_000), 5),
            tier("200万円超400万円以下の部分", 2_000_001, Some(4_000_000), 4),
            tier("400万円超の部分", 4_000_001, None, 3),
        ],
        tax_numer: 10,
        tax_denom: 100,
        low_cost_special,
    }
}

fn special(seller_only: bool) -> LowCostSpecialParams {
    LowCostSpecialParams {
        price_ceiling_inclusive: 8_000_000,
        fee_ceiling_exclusive_tax: 300_000,
        seller_only,
    }
}

fn ctx(price: u64, flags: &[RealEstateFlag]) -> RealEstateContext<StandardMlitPolicy> {
    let mut set = FlagSet::new();
    for f in flags {
        set.insert(*f);
    }
    RealEstateContext {
        price,
        target_date: LegalDate::new(2024, 8, 1),
        flags: set,
        policy: StandardMlitPolicy,
    }
}

#[test]
fn brokerage_fee_five_million() {
    let result = calculate_brokerage_fee(&ctx(5_000_000, &[]), &params(Some(special(false)))).unwrap();
    assert_eq!(result.total_without_tax.as_yen(), 210_000);
    assert_eq!(result.tax_amount.as_yen(), 21_000);
    assert_eq!(result.total_with_tax.as_yen(), 231_000);
    assert_eq!(result.breakdown.len(), 3);
    assert_eq!(result.breakdown[0].base_amount, 2_000_000);
    assert_eq!(result.breakdown[0].result.as_yen(), 100_000);
    assert_eq!(result.breakdown[1].result.as_yen(), 80_000);
    assert_eq!(result.breakdown[2].result.as_yen(), 30_000);
    assert!(!result.low_cost_special_applied);
}

#[test]
fn brokerage_fee_skips_tiers_the_price_does_not_reach() {
    let result = calculate_brokerage_fee(&ctx(1_000_000, &[]), &params(None)).unwrap();
    assert_eq!(result.total_without_tax.as_yen(), 50_000);
    assert_eq!(result.breakdown.len(), 1);
    assert_eq!(result.breakdown[0].label, "200万円以下の部分");
}

#[test]
fn low_cost_special_raises_the_fee_to_the_guaranteed_amount() {
    let result = calculate_brokerage_fee(
        &ctx(4_000_000, &[RealEstateFlag::IsLowCostVacantHouse]),
        &params(Some(special(false))),
    )
    .unwrap();
    assert!(result.low_cost_special_applied);
    assert_eq!(result.total_without_tax.as_yen(), 300_000);
    assert_eq!(result.tax_amount.as_yen(), 30_000);
    assert_eq!(result.total_with_tax.as_yen(), 330_000);
}

#[test]
fn low_cost_special_for_sellers_needs_the_seller_flag() {
    let buyer = calculate_brokerage_fee(
        &ctx(4_000_000, &[RealEstateFlag::IsLowCostVacantHouse]),
        &params(Some(special(true))),
    )
    .unwrap();
    assert!(!buyer.low_cost_special_applied);
    assert_eq!(buyer.total_without_tax.as_yen(), 180_000);

    let seller = calculate_brokerage_fee(
        &ctx(4_000_000, &[RealEstateFlag::IsLowCostVacantHouse, RealEstateFlag::IsSeller]),
        &params(Some(special(true))),
    )
    .unwrap();
    assert!(seller.low_cost_special_applied);
    assert_eq!(seller.total_without_tax.as_yen(), 300_000);
}

#[test]
fn low_cost_special_does_not_apply_above_the_price_ceiling() {
    let result = calculate_brokerage_fee(
        &ctx(9_000_000, &[RealEstateFlag::IsLowCostVacantHouse]),
        &params(Some(special(false))),
    )
    .unwrap();
    assert!(!result.low_cost_special_applied);
    assert_eq!(result.total_without_tax.as_yen(), 330_000);
}

#[test]
fn low_cost_claim_without_special_data_is_refused() {
    let result = calculate_brokerage_fee(
        &ctx(4_000_000, &[RealEstateFlag::IsLowCostVacantHouse]),
        &params(None),
    );
    assert!(matches!(
        result,
        Err(JLawError::Calculation(CalculationError::PolicyNotApplicable { .. }))
    ));
}

#[test]
fn tier_with_zero_denominator_is_refused() {
    let mut p = params(None);
    p.tiers[0].rate_denom = 0;
    let result = calculate_brokerage_fee(&ctx(1_000_000, &[]), &p);
    assert!(matches!(result, Err(JLawError::Input(j_law_core::InputError::ZeroDenominator))));
}

#[test]
fn tier_ranges_can_be_checked_before_calculating() {
    let p = params(None);
    assert!(j_law_core::domains::real_estate::calculator::check_tier_ranges(5_000_000, &p.tiers));
    let bad = vec![tier("壊れた区分", 2_000_001, Some(1_000_000), 4)];
    assert!(!j_law_core::domains::real_estate::calculator::check_tier_ranges(5_000_000, &bad));
    assert!(j_law_core::domains::real_estate::calculator::check_tier_ranges(1_000_000, &bad));
}

#[test]
fn brokerage_fee_grows_with_the_price() {
    let mut last = (0, 0, 0);
    for price in [0u64, 1_000_000, 2_000_000, 2_000_001, 3_999_999, 4_000_000, 5_000_000, 9_000_000] {
        let r = calculate_brokerage_fee(&ctx(price, &[]), &params(None)).unwrap();
        let now = (r.total_without_tax.as_yen(), r.tax_amount.as_yen(), r.total_with_tax.as_yen());
        assert!(now.0 >= last.0 && now.1 >= last.1 && now.2 >= last.2);
        last = now;
    }
}
