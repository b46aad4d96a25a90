use j_law_core::types::date::LegalDate;
use j_law_core::{
    CalculationError, FinalAmount, InputError, IntermediateAmount, JLawError, LegalCitation,
    MultiplyOrder, Rate, RoundingStrategy,
};

fn exact(yen: u64) -> IntermediateAmount {
    IntermediateAmount::from_exact(yen)
}

// ---- amounts ----

#[test]
fn final_amount_roundtrip() {
    let a = FinalAmount::new(210_000);
    assert_eq!(a.as_yen(), 210_000);
}

#[test]
fn from_exact_has_no_fraction() {
    let a = IntermediateAmount::from_exact(100);
    assert_eq!(a.whole(), 100);
    assert_eq!(a.numer(), 0);
}

#[test]
fn try_new_rejects_zero_denom() {
    let result = IntermediateAmount::try_new(100, 1, 0);
    assert!(matches!(result, Err(InputError::ZeroDenominator)));
}

#[test]
fn finalize_floor() {
    let a = IntermediateAmount::try_new(100, 1, 3).unwrap();
    assert_eq!(a.finalize(RoundingStrategy::Floor).unwrap().as_yen(), 100);
}

#[test]
fn finalize_ceil() {
    let a = IntermediateAmount::try_new(100, 1, 3).unwrap();
    assert_eq!(a.finalize(RoundingStrategy::Ceil).unwrap().as_yen(), 101);
}

#[test]
fn finalize_half_up() {
    let a = IntermediateAmount::try_new(100, 1, 2).unwrap();
    assert_eq!(a.finalize(RoundingStrategy::HalfUp).unwrap().as_yen(), 101);

    let b = IntermediateAmount::try_new(100, 1, 3).unwrap();
    assert_eq!(b.finalize(RoundingStrategy::HalfUp).unwrap().as_yen(), 100);
}

#[test]
fn finalize_no_fraction() {
    let a = IntermediateAmount::from_exact(5_000);
    assert_eq!(a.finalize(RoundingStrategy::Floor).unwrap().as_yen(), 5_000);
}

#[test]
fn add_two_exact() {
    let a = IntermediateAmount::from_exact(100);
    let b = IntermediateAmount::from_exact(200);
    let c = a.add(&b);
    assert_eq!(c.finalize(RoundingStrategy::Floor).unwrap().as_yen(), 300);
}

#[test]
fn add_carries_fraction() {
    let a = IntermediateAmount::try_new(0, 2, 3).unwrap();
    let b = IntermediateAmount::try_new(0, 2, 3).unwrap();
    let c = a.add(&b);
    assert_eq!(c.whole(), 1);
    assert_eq!(c.finalize(RoundingStrategy::Floor).unwrap().as_yen(), 1);
}

#[test]
fn try_new_keeps_an_improper_fraction() {
    // 10 + 7/3 is held as given; finalizing rounds the fraction 7/3.
    let a = IntermediateAmount::try_new(10, 7, 3).unwrap();
    assert_eq!(a.whole(), 10);
    assert_eq!(a.numer(), 7);
    assert_eq!(a.denom(), 3);
    assert_eq!(a.finalize(RoundingStrategy::Floor).unwrap().as_yen(), 12);
    assert_eq!(a.finalize(RoundingStrategy::Ceil).unwrap().as_yen(), 13);
}

#[test]
fn add_of_fractions_with_different_denominators_is_exact() {
    // (1 + 1/2) + (2 + 1/3) = 3 + 5/6.
    let a = IntermediateAmount::try_new(1, 1, 2).unwrap();
    let b = IntermediateAmount::try_new(2, 1, 3).unwrap();
    let c = a.add(&b);
    assert_eq!(c.whole(), 3);
    assert_eq!(c.finalize(RoundingStrategy::Floor).unwrap().as_yen(), 3);
    assert_eq!(c.finalize(RoundingStrategy::Ceil).unwrap().as_yen(), 4);
    assert_eq!(c.finalize(RoundingStrategy::HalfUp).unwrap().as_yen(), 4);
}

#[test]
fn final_amount_display_text() {
    assert_eq!(FinalAmount::new(1_234_567).display_text(), "1234567円");
}

// ---- rounding ----

#[test]
fn floor_truncates() {
    assert_eq!(RoundingStrategy::Floor.apply_ratio(10, 3), 3);
    assert_eq!(RoundingStrategy::Floor.apply_ratio(9, 3), 3);
    assert_eq!(RoundingStrategy::Floor.apply_ratio(0, 5), 0);
}

#[test]
fn ceil_rounds_up() {
    assert_eq!(RoundingStrategy::Ceil.apply_ratio(10, 3), 4);
    assert_eq!(RoundingStrategy::Ceil.apply_ratio(9, 3), 3);
    assert_eq!(RoundingStrategy::Ceil.apply_ratio(1, 5), 1);
}

#[test]
fn half_up_rounds() {
    assert_eq!(RoundingStrategy::HalfUp.apply_ratio(5, 2), 3);
    assert_eq!(RoundingStrategy::HalfUp.apply_ratio(4, 2), 2);
    assert_eq!(RoundingStrategy::HalfUp.apply_ratio(7, 3), 2);
    assert_eq!(RoundingStrategy::HalfUp.apply_ratio(8, 3), 3);
}

#[test]
fn rounding_at_the_top_of_the_range_does_not_overflow() {
    assert_eq!(RoundingStrategy::Ceil.apply_ratio(u64::MAX, 2), u64::MAX / 2 + 1);
    assert_eq!(RoundingStrategy::HalfUp.apply_ratio(u64::MAX, 2), u64::MAX / 2 + 1);
    assert_eq!(RoundingStrategy::Floor.apply_ratio(u64::MAX, 1), u64::MAX);
}

// ---- citations ----

#[test]
fn display_article_only() {
    let c = LegalCitation::article_only("reitaku-46", "宅地建物取引業法", 46, LegalDate::new(2024, 7, 1));
    assert_eq!(c.display_text(), "宅地建物取引業法 第46条");
}

#[test]
fn display_with_paragraph_and_item() {
    let c = LegalCitation {
        law_id: "reitaku-46".into(),
        law_name: "宅地建物取引業法".into(),
        article: 46,
        paragraph: Some(1),
        item: Some(2),
        effective_date: LegalDate::new(2024, 7, 1),
    };
    assert_eq!(c.display_text(), "宅地建物取引業法 第46条第1項第2号");
}

// ---- rates ----

#[test]
fn rate_5_percent_multiply_first() {
    let rate = Rate { numer: 5, denom: 100 };
    let result = rate
        .apply(&exact(2_000_000), MultiplyOrder::MultiplyFirst, RoundingStrategy::Floor)
        .unwrap();
    assert_eq!(result.finalize(RoundingStrategy::Floor).unwrap().as_yen(), 100_000);
}

#[test]
fn rate_4_percent_tier2() {
    let rate = Rate { numer: 4, denom: 100 };
    let result = rate
        .apply(&exact(2_000_000), MultiplyOrder::MultiplyFirst, RoundingStrategy::Floor)
        .unwrap();
    assert_eq!(result.finalize(RoundingStrategy::Floor).unwrap().as_yen(), 80_000);
}

#[test]
fn rate_3_percent_tier3() {
    let rate = Rate { numer: 3, denom: 100 };
    let result = rate
        .apply(&exact(1_000_000), MultiplyOrder::MultiplyFirst, RoundingStrategy::Floor)
        .unwrap();
    assert_eq!(result.finalize(RoundingStrategy::Floor).unwrap().as_yen(), 30_000);
}

#[test]
fn multiply_first_vs_divide_first_differ() {
    let rate = Rate { numer: 3, denom: 4 };
    let mf = rate.apply(&exact(7), MultiplyOrder::MultiplyFirst, RoundingStrategy::Floor).unwrap();
    let df = rate.apply(&exact(7), MultiplyOrder::DivideFirst, RoundingStrategy::Floor).unwrap();
    assert_eq!(mf.finalize(RoundingStrategy::Floor).unwrap().as_yen(), 5);
    assert_eq!(df.finalize(RoundingStrategy::Floor).unwrap().as_yen(), 3);
}

#[test]
fn tax_10_percent() {
    let rate = Rate { numer: 10, denom: 100 };
    let result = rate
        .apply(&exact(210_000), MultiplyOrder::MultiplyFirst, RoundingStrategy::Floor)
        .unwrap();
    assert_eq!(result.finalize(RoundingStrategy::Floor).unwrap().as_yen(), 21_000);
}

#[test]
fn zero_denominator_returns_error() {
    let rate = Rate { numer: 1, denom: 0 };
    let result = rate.apply(&exact(100), MultiplyOrder::MultiplyFirst, RoundingStrategy::Floor);
    assert!(result.is_err());
    assert!(matches!(result.unwrap_err(), JLawError::Input(InputError::ZeroDenominator)));
}

#[test]
fn overflow_returns_calculation_error() {
    let rate = Rate { numer: 2, denom: 1 };
    let result = rate.apply(&exact(u64::MAX), MultiplyOrder::MultiplyFirst, RoundingStrategy::Floor);
    assert!(result.is_err());
    assert!(matches!(
        result.unwrap_err(),
        JLawError::Calculation(CalculationError::Overflow { .. })
    ));
}

#[test]
fn rate_rounds_the_product_by_the_given_strategy() {
    // 10 × 1/3 = 3 + 1/3: Floor gives 3, Ceil gives 4, and no fraction is left.
    let rate = Rate { numer: 1, denom: 3 };
    let floor = rate.apply(&exact(10), MultiplyOrder::MultiplyFirst, RoundingStrategy::Floor).unwrap();
    assert_eq!(floor.whole(), 3);
    assert_eq!(floor.numer(), 0);
    assert_eq!(floor.finalize(RoundingStrategy::Ceil).unwrap().as_yen(), 3);
    let ceil = rate.apply(&exact(10), MultiplyOrder::MultiplyFirst, RoundingStrategy::Ceil).unwrap();
    assert_eq!(ceil.whole(), 4);
}

// ---- dates ----

#[test]
fn new_and_fields() {
    let d = LegalDate::new(2024, 8, 1);
    assert_eq!(d.year, 2024);
    assert_eq!(d.month, 8);
    assert_eq!(d.day, 1);
}

#[test]
fn to_date_str_format() {
    assert_eq!(LegalDate::new(2024, 8, 1).to_date_str(), "2024-08-01");
    assert_eq!(LegalDate::new(2015, 1, 1).to_date_str(), "2015-01-01");
    assert_eq!(LegalDate::new(2024, 12, 31).to_date_str(), "2024-12-31");
}

#[test]
fn validate_accepts_leap_day() {
    assert!(LegalDate::new(2024, 2, 29).validate().is_ok());
}

#[test]
fn validate_rejects_invalid_month() {
    let result = LegalDate::new(2024, 13, 1).validate();
    assert!(matches!(result, Err(InputError::InvalidDate { .. })));
    let err_str = match result {
        Err(err) => err.message(),
        Ok(()) => String::new(),
    };
    assert!(err_str.contains("2024-13-01"));
}

#[test]
fn validate_rejects_invalid_day() {
    let result = LegalDate::new(2024, 2, 30).validate();
    assert!(matches!(result, Err(InputError::InvalidDate { .. })));
    let err_str = match result {
        Err(err) => err.message(),
        Ok(()) => String::new(),
    };
    assert!(err_str.contains("2024-02-30"));
}

#[test]
fn validate_rejects_year_zero() {
    let result = LegalDate::new(0, 1, 1).validate();
    assert!(matches!(result, Err(InputError::InvalidDate { .. })));
    let err_str = match result {
        Err(err) => err.message(),
        Ok(()) => String::new(),
    };
    assert!(err_str.contains("0000-01-01"));
}

#[test]
fn validate_reports_the_month_length() {
    match LegalDate::new(2023, 2, 29).validate() {
        Err(InputError::InvalidDate { date, reason }) => {
            assert_eq!(date, "2023-02-29");
            assert_eq!(reason, "指定された月の日数を超えています: max_day=28");
        }
        other => panic!("unexpected result: {:?}", other),
    }
}

#[test]
fn from_date_str_valid() {
    let d = LegalDate::from_date_str("2024-07-01").unwrap();
    assert_eq!(d, LegalDate::new(2024, 7, 1));
}

#[test]
fn from_date_str_invalid() {
    assert!(LegalDate::from_date_str("2024-7-1").is_none());
    assert!(LegalDate::from_date_str("20240701").is_none());
    assert!(LegalDate::from_date_str("not-a-date").is_none());
    assert!(LegalDate::from_date_str("0000-01-01").is_none());
}

#[test]
fn from_date_str_rejects_impossible_dates() {
    assert!(LegalDate::from_date_str("2023-02-29").is_none());
    assert!(LegalDate::from_date_str("2024-02-29").is_some());
    assert!(LegalDate::from_date_str("2024-04-31").is_none());
    assert!(LegalDate::from_date_str("2024-06-31").is_none());
    assert!(LegalDate::from_date_str("2024-13-01").is_none());
    assert!(LegalDate::from_date_str("2024-01-00").is_none());
}

#[test]
fn date_text_roundtrip_on_examples() {
    for d in [
        LegalDate::new(2024, 2, 29),
        LegalDate::new(1, 1, 1),
        LegalDate::new(9999, 12, 31),
    ] {
        assert_eq!(LegalDate::from_date_str(&d.to_date_str()), Some(d));
    }
}

#[test]
fn is_leap_year_cases() {
    assert!(LegalDate::is_leap_year(2000));
    assert!(!LegalDate::is_leap_year(1900));
    assert!(LegalDate::is_leap_year(2024));
    assert!(!LegalDate::is_leap_year(2023));
}

#[test]
fn days_in_month_cases() {
    assert_eq!(LegalDate::days_in_month(2024, 2), 29);
    assert_eq!(LegalDate::days_in_month(2023, 2), 28);
    assert_eq!(LegalDate::days_in_month(2024, 4), 30);
    assert_eq!(LegalDate::days_in_month(2024, 12), 31);
}

#[test]
fn next_day_normal() {
    assert_eq!(LegalDate::new(2024, 7, 15).next_day(), LegalDate::new(2024, 7, 16));
}

#[test]
fn next_day_month_end_30() {
    assert_eq!(LegalDate::new(2024, 6, 30).next_day(), LegalDate::new(2024, 7, 1));
}

#[test]
fn next_day_month_end_31() {
    assert_eq!(LegalDate::new(2024, 7, 31).next_day(), LegalDate::new(2024, 8, 1));
}

#[test]
fn next_day_year_end() {
    assert_eq!(LegalDate::new(2024, 12, 31).next_day(), LegalDate::new(2025, 1, 1));
}

#[test]
fn next_day_feb_28_non_leap() {
    assert_eq!(LegalDate::new(2023, 2, 28).next_day(), LegalDate::new(2023, 3, 1));
}

#[test]
fn next_day_feb_28_leap() {
    assert_eq!(LegalDate::new(2024, 2, 28).next_day(), LegalDate::new(2024, 2, 29));
}

#[test]
fn next_day_feb_29_leap() {
    assert_eq!(LegalDate::new(2024, 2, 29).next_day(), LegalDate::new(2024, 3, 1));
}
