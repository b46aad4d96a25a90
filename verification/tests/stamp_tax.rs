use std::str::FromStr;

use j_law_core::domains::stamp_tax::{
    calculate_stamp_tax, StampTaxAmountUsage, StampTaxBracket, StampTaxChargeMode,
    StampTaxCitation, StampTaxContext, StampTaxDocumentCode, StampTaxDocumentMap,
    StampTaxDocumentParams, StampTaxFlag, StampTaxParams, StampTaxPolicy, StampTaxSpecialRule,
    StandardNtaPolicy,
};
use j_law_core::flags::FlagSet;
use j_law_core::types::date::LegalDate;
use j_law_core::{CalculationError, InputError, JLawError};

fn amount_document() -> StampTaxDocumentParams {
    StampTaxDocumentParams {
        code: StampTaxDocumentCode::Article17SalesReceipt,
        label: "売上代金受取書".into(),
        citation: StampTaxCitation { law_name: "印紙税法".into(), article: "別表第一 第17号文書".into() },
        charge_mode: StampTaxChargeMode::AmountBrackets,
        amount_usage: StampTaxAmountUsage::Optional,
        base_rule_label: "通常".into(),
        base_tax_amount: None,
        brackets: vec![StampTaxBracket {
            label: "100万円以下のもの".into(),
            amount_from: 50_000,
            amount_to_inclusive: Some(1_000_000),
            tax_amount: 200,
        }],
        no_amount_tax_amount: Some(200),
        no_amount_rule_label: Some("受取金額の記載のないもの".into()),
        special_rules: vec![StampTaxSpecialRule {
            code: "article17_non_business_exempt".into(),
            label: "非課税".into(),
            priority: 1,
            effective_from: None,
            effective_until: None,
            required_flags: vec![StampTaxFlag::Article17NonBusinessExempt],
            tax_amount: Some(0),
            rule_label: Some("営業に関しないもの".into()),
            brackets: vec![],
            no_amount_tax_amount: None,
            no_amount_rule_label: None,
        }],
    }
}

fn params_with(document: StampTaxDocumentParams) -> StampTaxParams {
    let mut documents = StampTaxDocumentMap::new();
    documents.insert(document.code, document);
    StampTaxParams { documents }
}

fn ctx(
    document_code: StampTaxDocumentCode,
    stated_amount: Option<u64>,
    flags: &[StampTaxFlag],
) -> StampTaxContext<StandardNtaPolicy> {
    let mut set = FlagSet::new();
    for f in flags {
        set.insert(*f);
    }
    StampTaxContext {
        document_code,
        stated_amount,
        target_date: LegalDate::new(2024, 8, 1),
        flags: set,
        policy: StandardNtaPolicy,
    }
}

fn stamp_error(result: Result<j_law_core::domains::stamp_tax::StampTaxResult, JLawError>) -> (String, String) {
    match result {
        Err(JLawError::Input(InputError::InvalidStampTaxInput { field, reason })) => (field, reason),
        _ => panic!("expected a stamp tax input error"),
    }
}

#[test]
fn calculates_base_amount_rule() {
    let mut documents = StampTaxDocumentMap::new();
    documents.insert(StampTaxDocumentCode::Article17SalesReceipt, amount_document());
    let params = StampTaxParams { documents };
    let ctx = StampTaxContext {
        document_code: StampTaxDocumentCode::Article17SalesReceipt,
        stated_amount: Some(60_000),
        target_date: LegalDate::new(2024, 8, 1),
        flags: FlagSet::new(),
        policy: StandardNtaPolicy,
    };

    let result = calculate_stamp_tax(&ctx, &params).unwrap();
    assert_eq!(result.tax_amount.as_yen(), 200);
    assert_eq!(result.rule_label, "100万円以下のもの");
}

#[test]
fn applies_special_rule() {
    let mut documents = StampTaxDocumentMap::new();
    documents.insert(StampTaxDocumentCode::Article17SalesReceipt, amount_document());
    let params = StampTaxParams { documents };
    let mut flags = FlagSet::new();
    flags.insert(StampTaxFlag::Article17NonBusinessExempt);
    let ctx = StampTaxContext {
        document_code: StampTaxDocumentCode::Article17SalesReceipt,
        stated_amount: Some(60_000),
        target_date: LegalDate::new(2024, 8, 1),
        flags,
        policy: StandardNtaPolicy,
    };

    let result = calculate_stamp_tax(&ctx, &params).unwrap();
    assert_eq!(result.tax_amount.as_yen(), 0);
    assert_eq!(result.applied_special_rule.as_deref(), Some("article17_non_business_exempt"));
}

#[test]
fn document_code_roundtrip() {
    let code = StampTaxDocumentCode::from_str("article17_sales_receipt").unwrap();
    assert_eq!(code, StampTaxDocumentCode::Article17SalesReceipt);
    assert_eq!(code.as_str(), "article17_sales_receipt");
    assert_eq!(StampTaxDocumentCode::from_ffi_code(code.ffi_code()).unwrap(), code);
}

#[test]
fn flag_roundtrip_from_bitmask() {
    let mask = StampTaxFlag::Article3CopyOrTranscriptExempt.bitmask()
        | StampTaxFlag::Article17AppendedReceiptExempt.bitmask();
    let flags = StampTaxFlag::from_bitmask(mask).unwrap();
    assert!(flags.contains(&StampTaxFlag::Article3CopyOrTranscriptExempt));
    assert!(flags.contains(&StampTaxFlag::Article17AppendedReceiptExempt));
}

#[test]
fn standard_policy_selects_matching_rule() {
    let document = StampTaxDocumentParams {
        code: StampTaxDocumentCode::Article1RealEstateTransfer,
        label: "第1号".into(),
        citation: StampTaxCitation { law_name: "印紙税法".into(), article: "別表第一 第1号文書".into() },
        charge_mode: StampTaxChargeMode::AmountBrackets,
        amount_usage: StampTaxAmountUsage::Optional,
        base_rule_label: "通常".into(),
        base_tax_amount: None,
        brackets: vec![],
        no_amount_tax_amount: Some(200),
        no_amount_rule_label: Some("記載なし".into()),
        special_rules: vec![StampTaxSpecialRule {
            code: "reduced".into(),
            label: "軽減".into(),
            priority: 1,
            effective_from: Some("2014-04-01".into()),
            effective_until: Some("2027-03-31".into()),
            required_flags: vec![StampTaxFlag::Article17NonBusinessExempt],
            tax_amount: Some(0),
            rule_label: Some("非課税".into()),
            brackets: vec![StampTaxBracket {
                label: "50万円以下".into(),
                amount_from: 0,
                amount_to_inclusive: Some(500_000),
                tax_amount: 0,
            }],
            no_amount_tax_amount: None,
            no_amount_rule_label: None,
        }],
    };

    let mut flags = FlagSet::new();
    flags.insert(StampTaxFlag::Article17NonBusinessExempt);
    let ctx = StampTaxContext {
        document_code: StampTaxDocumentCode::Article1RealEstateTransfer,
        stated_amount: Some(100_000),
        target_date: LegalDate::new(2024, 1, 1),
        flags,
        policy: StandardNtaPolicy,
    };

    let rule = StandardNtaPolicy.select_special_rule(&ctx, &document).unwrap();
    assert_eq!(rule.code, "reduced");
}

fn rule(code: &str, priority: u32, from: Option<&str>, until: Option<&str>, tax: u64) -> StampTaxSpecialRule {
    StampTaxSpecialRule {
        code: code.into(),
        label: code.into(),
        priority,
        effective_from: from.map(|s| s.into()),
        effective_until: until.map(|s| s.into()),
        required_flags: vec![],
        tax_amount: Some(tax),
        rule_label: None,
        brackets: vec![],
        no_amount_tax_amount: None,
        no_amount_rule_label: None,
    }
}

#[test]
fn policy_prefers_the_lowest_priority_number_then_the_first() {
    let mut document = amount_document();
    document.special_rules = vec![rule("b", 2, None, None, 100), rule("a1", 1, None, None, 50), rule("a2", 1, None, None, 60)];
    let c = ctx(StampTaxDocumentCode::Article17SalesReceipt, Some(60_000), &[]);
    let chosen = StandardNtaPolicy.select_special_rule(&c, &document).unwrap();
    assert_eq!(chosen.code, "a1");
    let result = calculate_stamp_tax(&c, &params_with(document)).unwrap();
    assert_eq!(result.tax_amount.as_yen(), 50);
    assert_eq!(result.rule_label, "a1");
    assert_eq!(result.breakdown.len(), 1);
    assert_eq!(result.breakdown[0].rule_code, "a1");
}

#[test]
fn policy_respects_the_period_of_a_rule() {
    let mut document = amount_document();
    document.special_rules = vec![
        rule("past", 1, Some("2014-04-01"), Some("2024-07-31"), 10),
        rule("current", 2, Some("2024-08-01"), None, 20),
    ];
    let c = ctx(StampTaxDocumentCode::Article17SalesReceipt, Some(60_000), &[]);
    assert_eq!(StandardNtaPolicy.select_special_rule(&c, &document).unwrap().code, "current");

    let mut earlier = ctx(StampTaxDocumentCode::Article17SalesReceipt, Some(60_000), &[]);
    earlier.target_date = LegalDate::new(2024, 7, 31);
    assert_eq!(StandardNtaPolicy.select_special_rule(&earlier, &document).unwrap().code, "past");
}

#[test]
fn base_rule_breakdown_names_base() {
    let result = calculate_stamp_tax(
        &ctx(StampTaxDocumentCode::Article17SalesReceipt, Some(60_000), &[]),
        &params_with(amount_document()),
    )
    .unwrap();
    assert!(result.applied_special_rule.is_none());
    assert_eq!(result.breakdown[0].rule_code, "base");
    assert_eq!(result.breakdown[0].tax_amount.as_yen(), 200);
}

#[test]
fn no_stated_amount_uses_the_no_amount_tax() {
    let result = calculate_stamp_tax(
        &ctx(StampTaxDocumentCode::Article17SalesReceipt, None, &[]),
        &params_with(amount_document()),
    )
    .unwrap();
    assert_eq!(result.tax_amount.as_yen(), 200);
    assert_eq!(result.rule_label, "受取金額の記載のないもの");
}

#[test]
fn amount_outside_every_bracket_is_refused() {
    let result = calculate_stamp_tax(
        &ctx(StampTaxDocumentCode::Article17SalesReceipt, Some(10_000), &[]),
        &params_with(amount_document()),
    );
    match result {
        Err(JLawError::Calculation(CalculationError::PolicyNotApplicable { reason })) => {
            assert_eq!(reason, "article17_sales_receipt の記載金額 10000円 に対応する税額区分が見つかりません");
        }
        _ => panic!("expected PolicyNotApplicable"),
    }
}

#[test]
fn missing_document_params_are_refused() {
    let (field, reason) = stamp_error(calculate_stamp_tax(
        &ctx(StampTaxDocumentCode::Article20SealBook, None, &[]),
        &params_with(amount_document()),
    ));
    assert_eq!(field, "document_code");
    assert_eq!(reason, "対象文書コードのパラメータが存在しません: article20_seal_book");
}

#[test]
fn required_amount_must_be_given() {
    let mut document = amount_document();
    document.amount_usage = StampTaxAmountUsage::Required;
    let (field, reason) = stamp_error(calculate_stamp_tax(
        &ctx(StampTaxDocumentCode::Article17SalesReceipt, None, &[]),
        &params_with(document),
    ));
    assert_eq!(field, "stated_amount");
    assert_eq!(reason, "article17_sales_receipt には記載金額の指定が必要です");
}

#[test]
fn unsupported_amount_may_not_be_given() {
    let mut document = amount_document();
    document.amount_usage = StampTaxAmountUsage::Unsupported;
    let (field, reason) = stamp_error(calculate_stamp_tax(
        &ctx(StampTaxDocumentCode::Article17SalesReceipt, Some(1), &[]),
        &params_with(document),
    ));
    assert_eq!(field, "stated_amount");
    assert_eq!(reason, "article17_sales_receipt では記載金額を指定できません");
}

#[test]
fn flag_of_another_document_is_refused() {
    let (field, reason) = stamp_error(calculate_stamp_tax(
        &ctx(StampTaxDocumentCode::Article17SalesReceipt, Some(60_000), &[StampTaxFlag::Article6NotaryCopyExempt]),
        &params_with(amount_document()),
    ));
    assert_eq!(field, "flags");
    assert_eq!(reason, "article6_notary_copy_exempt は article17_sales_receipt には指定できません");
}

#[test]
fn small_deposit_flag_needs_an_amount() {
    let mut document = amount_document();
    document.code = StampTaxDocumentCode::Article8DepositCertificate;
    let (field, reason) = stamp_error(calculate_stamp_tax(
        &ctx(StampTaxDocumentCode::Article8DepositCertificate, None, &[StampTaxFlag::Article8SmallDepositExempt]),
        &params_with(document),
    ));
    assert_eq!(field, "stated_amount");
    assert_eq!(reason, "article8_small_deposit_exempt を指定する場合は記載金額が必要です");
}

#[test]
fn fixed_tax_document() {
    let mut document = amount_document();
    document.code = StampTaxDocumentCode::Article20SealBook;
    document.charge_mode = StampTaxChargeMode::FixedPerYear;
    document.base_tax_amount = Some(4_000);
    document.base_rule_label = "判取帳".into();
    document.special_rules = vec![];
    let result = calculate_stamp_tax(
        &ctx(StampTaxDocumentCode::Article20SealBook, None, &[]),
        &params_with(document),
    )
    .unwrap();
    assert_eq!(result.tax_amount.as_yen(), 4_000);
    assert_eq!(result.rule_label, "判取帳");
}

#[test]
fn fixed_tax_document_without_amount_is_refused() {
    let mut document = amount_document();
    document.charge_mode = StampTaxChargeMode::FixedPerDocument;
    document.special_rules = vec![];
    let result = calculate_stamp_tax(
        &ctx(StampTaxDocumentCode::Article17SalesReceipt, None, &[]),
        &params_with(document),
    );
    match result {
        Err(JLawError::Calculation(CalculationError::PolicyNotApplicable { reason })) => {
            assert_eq!(reason, "固定税額が未設定です: article17_sales_receipt");
        }
        _ => panic!("expected PolicyNotApplicable"),
    }
}

#[test]
fn special_rule_without_tax_is_refused() {
    let mut document = amount_document();
    document.special_rules = vec![StampTaxSpecialRule { tax_amount: None, ..rule("broken", 1, None, None, 0) }];
    let result = calculate_stamp_tax(
        &ctx(StampTaxDocumentCode::Article17SalesReceipt, Some(60_000), &[]),
        &params_with(document),
    );
    match result {
        Err(JLawError::Calculation(CalculationError::PolicyNotApplicable { reason })) => {
            assert_eq!(reason, "特例ルールの税額定義が不正です: broken");
        }
        _ => panic!("expected PolicyNotApplicable"),
    }
}

#[test]
fn invalid_date_is_refused() {
    let mut c = ctx(StampTaxDocumentCode::Article17SalesReceipt, Some(60_000), &[]);
    c.target_date = LegalDate::new(2023, 2, 29);
    let result = calculate_stamp_tax(&c, &params_with(amount_document()));
    assert!(matches!(result, Err(JLawError::Input(InputError::InvalidDate { .. }))));
}

#[test]
fn later_document_entry_replaces_earlier() {
    let mut documents = StampTaxDocumentMap::new();
    documents.insert(StampTaxDocumentCode::Article17SalesReceipt, amount_document());
    let mut second = amount_document();
    second.no_amount_tax_amount = Some(400);
    documents.insert(StampTaxDocumentCode::Article17SalesReceipt, second);
    assert_eq!(documents.get(StampTaxDocumentCode::Article17SalesReceipt).unwrap().no_amount_tax_amount, Some(400));
    assert!(documents.get(StampTaxDocumentCode::Article1RealEstateTransfer).is_none());
}

#[test]
fn unknown_flag_bits_are_refused() {
    match StampTaxFlag::from_bitmask(1 << 11 | 1) {
        Err(InputError::InvalidStampTaxInput { field, reason }) => {
            assert_eq!(field, "flags");
            assert_eq!(reason, "未知の印紙税フラグビットです: 0x800");
        }
        _ => panic!("expected an input error"),
    }
}

#[test]
fn every_code_roundtrips() {
    for code in 1u32..=27 {
        let c = StampTaxDocumentCode::from_ffi_code(code).unwrap();
        assert_eq!(c.ffi_code(), code);
        assert_eq!(StampTaxDocumentCode::from_str(c.as_str()).unwrap(), c);
        assert_eq!(u32::from(c), code);
    }
    assert!(StampTaxDocumentCode::from_ffi_code(0).is_err());
    assert!(StampTaxDocumentCode::from_ffi_code(28).is_err());
    for f in StampTaxFlag::all() {
        assert_eq!(StampTaxFlag::from_str(f.as_str()).unwrap(), f);
        let set = StampTaxFlag::from_bitmask(f.bitmask()).unwrap();
        assert_eq!(set.len(), 1);
        assert!(set.contains(&f));
        assert!(f.allowed_document_codes().len() >= 1);
    }
    assert!(StampTaxFlag::from_str("nothing").is_err());
}

#[test]
fn only_the_small_deposit_flag_requires_an_amount() {
    for f in StampTaxFlag::all() {
        assert_eq!(f.requires_stated_amount(), f == StampTaxFlag::Article8SmallDepositExempt);
    }
}

#[test]
fn params_bracket_construction() {
    let bracket = StampTaxBracket {
        label: "10万円超50万円以下".into(),
        amount_from: 100_001,
        amount_to_inclusive: Some(500_000),
        tax_amount: 400,
    };
    assert_eq!(bracket.tax_amount, 400);
    assert!(bracket.matches(500_000));
    assert!(!bracket.matches(100_000));
}

fn one_bracket_document(code: StampTaxDocumentCode, label: &str) -> StampTaxDocumentParams {
    StampTaxDocumentParams {
        code,
        label: label.into(),
        citation: StampTaxCitation { law_name: "印紙税法".into(), article: "別表第一".into() },
        charge_mode: StampTaxChargeMode::AmountBrackets,
        amount_usage: StampTaxAmountUsage::Optional,
        base_rule_label: "通常".into(),
        base_tax_amount: None,
        brackets: vec![StampTaxBracket {
            label: label.into(),
            amount_from: 0,
            amount_to_inclusive: Some(9_999),
            tax_amount: 0,
        }],
        no_amount_tax_amount: None,
        no_amount_rule_label: None,
        special_rules: vec![StampTaxSpecialRule {
            effective_from: Some("2014-04-01".into()),
            effective_until: Some("2027-03-31".into()),
            ..rule("reduced", 1, None, None, 0)
        }],
    }
}

#[test]
fn document_params_construction() {
    let document = one_bracket_document(StampTaxDocumentCode::Article1RealEstateTransfer, "非課税");
    assert_eq!(document.brackets.len(), 1);
    assert!(document.special_rules[0].effective_from.is_some());
}

#[test]
fn params_select_document_kind() {
    let mut documents = StampTaxDocumentMap::new();
    documents.insert(
        StampTaxDocumentCode::Article1RealEstateTransfer,
        one_bracket_document(StampTaxDocumentCode::Article1RealEstateTransfer, "不動産"),
    );
    documents.insert(
        StampTaxDocumentCode::Article2ConstructionWork,
        one_bracket_document(StampTaxDocumentCode::Article2ConstructionWork, "工事"),
    );
    let params = StampTaxParams { documents };
    assert_eq!(
        params.document_params(StampTaxDocumentCode::Article2ConstructionWork).unwrap().brackets[0].label,
        "工事"
    );
}

#[test]
fn or_of_flag_bits_gives_the_flags_back() {
    let all = StampTaxFlag::all();
    let mut mask = 0u64;
    for f in all.iter().step_by(2) {
        mask |= f.bitmask();
    }
    let set = StampTaxFlag::from_bitmask(mask).unwrap();
    for (i, f) in all.iter().enumerate() {
        assert_eq!(set.contains(f), i % 2 == 0);
    }
    assert_eq!(set.len(), 6);
    assert!(StampTaxFlag::from_bitmask(0x7ff).is_ok());
    assert!(StampTaxFlag::from_bitmask(0x800).is_err());
}
