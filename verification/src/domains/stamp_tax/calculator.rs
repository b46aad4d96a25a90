use vstd::prelude::*;

use crate::domains::stamp_tax::context::{
    document_code_name, flag_documents, flag_name, StampTaxContext, StampTaxDocumentCode,
    StampTaxFlag,
};
use crate::domains::stamp_tax::params::{
    StampTaxAmountUsage, StampTaxBracket, StampTaxChargeMode, StampTaxDocumentParams,
    StampTaxParams, StampTaxSpecialRule,
};
use crate::domains::stamp_tax::policy::{standard_selection, StampTaxPolicy, StandardNtaPolicy};
use crate::error::{fails_as, not_applicable, Failure, InputError, JLawError};
use crate::search::{first_index, lemma_first_index};
use crate::text::{join3, lex_le, with_decimal};
use crate::types::amount::FinalAmount;
use crate::types::date::{date_text, invalid_date_reason, is_valid_date};

verus! {

/// One line of the stamp tax breakdown.
#[derive(Debug, Clone)]
pub struct StampTaxBreakdownStep {
    /// The code of the rule applied (`base` for the ordinary table).
    pub rule_code: String,
    /// The label of the rule.
    pub label: String,
    /// The tax, in yen.
    pub tax_amount: FinalAmount,
}

/// The result of the stamp tax calculation.
///
/// Legal basis: Stamp Tax Act, Schedule 1; Act on Special Measures
/// Concerning Taxation, Article 91.
#[derive(Debug, Clone)]
pub struct StampTaxResult {
    /// The tax, in yen.
    pub tax_amount: FinalAmount,
    /// The label of the rule applied.
    pub rule_label: String,
    /// The code of the special rule applied, if one was.
    pub applied_special_rule: Option<String>,
    /// The breakdown.
    pub breakdown: Vec<StampTaxBreakdownStep>,
}

/// A tax found by a rule: the amount in yen and its label.
struct ResolvedTaxRule {
    tax_amount: u64,
    rule_label: String,
}

/// The tax of an amount table: the first bracket that covers the stated
/// amount, or the tax for no stated amount; or the failure met.
pub open spec fn amount_table_outcome(
    stated_amount: Option<u64>,
    brackets: Seq<StampTaxBracket>,
    no_amount_tax_amount: Option<u64>,
    no_amount_rule_label: Option<Seq<char>>,
    code: StampTaxDocumentCode,
) -> Result<(u64, Seq<char>), Failure> {
    match stated_amount {
        Some(amount) => {
            let i = first_index(brackets, |b: StampTaxBracket| b.covers(amount));
            if i == brackets.len() {
                Err(
                    Failure::NotApplicable(
                        document_code_name(code) + " の記載金額 "@ + crate::text::decimal(
                            amount as nat,
                        ) + "円 に対応する税額区分が見つかりません"@,
                    ),
                )
            } else {
                Ok((brackets[i].tax_amount, brackets[i].label@))
            }
        },
        None => match no_amount_tax_amount {
            None => Err(
                Failure::InvalidStampTaxInput(
                    "stated_amount"@,
                    document_code_name(code) + " には記載金額の指定が必要です"@,
                ),
            ),
            Some(tax) => Ok(
                (
                    tax,
                    match no_amount_rule_label {
                        Some(label) => label,
                        None => "記載金額の記載のないもの"@,
                    },
                ),
            ),
        },
    }
}

/// The label of an optional string.
pub open spec fn optional_text(s: Option<String>) -> Option<Seq<char>> {
    match s {
        Some(t) => Some(t@),
        None => None,
    }
}

/// The tax that a special rule gives: its fixed tax, else its own amount
/// table; a rule with neither is malformed.
pub open spec fn special_rule_outcome(
    stated_amount: Option<u64>,
    document: StampTaxDocumentParams,
    rule: StampTaxSpecialRule,
) -> Result<(u64, Seq<char>), Failure> {
    match rule.tax_amount {
        Some(tax) => Ok(
            (
                tax,
                match rule.rule_label {
                    Some(label) => label@,
                    None => rule.label@,
                },
            ),
        ),
        None => if rule.brackets@.len() > 0 || rule.no_amount_tax_amount is Some {
            amount_table_outcome(
                stated_amount,
                rule.brackets@,
                rule.no_amount_tax_amount,
                optional_text(rule.no_amount_rule_label),
                document.code,
            )
        } else {
            Err(Failure::NotApplicable("特例ルールの税額定義が不正です: "@ + rule.code@))
        },
    }
}

/// The tax of the document's ordinary rule.
pub open spec fn base_rule_outcome(
    stated_amount: Option<u64>,
    document: StampTaxDocumentParams,
) -> Result<(u64, Seq<char>), Failure> {
    match document.charge_mode {
        StampTaxChargeMode::AmountBrackets => amount_table_outcome(
            stated_amount,
            document.brackets@,
            document.no_amount_tax_amount,
            optional_text(document.no_amount_rule_label),
            document.code,
        ),
        _ => match document.base_tax_amount {
            Some(tax) => Ok((tax, document.base_rule_label@)),
            None => Err(
                Failure::NotApplicable("固定税額が未設定です: "@ + document_code_name(document.code)),
            ),
        },
    }
}

/// The failure of the first given flag, in the order given, that may not
/// be given for the document or needs a stated amount it lacks.
pub open spec fn flags_failure(
    flags: Seq<StampTaxFlag>,
    code: StampTaxDocumentCode,
    stated_amount: Option<u64>,
) -> Option<Failure>
    decreases flags.len(),
{
    if flags.len() == 0 {
        None
    } else {
        let flag = flags[0];
        if !flag_documents(flag).contains(code) {
            Some(
                Failure::InvalidStampTaxInput(
                    "flags"@,
                    flag_name(flag) + " は "@ + document_code_name(code) + " には指定できません"@,
                ),
            )
        } else if flag == StampTaxFlag::Article8SmallDepositExempt && stated_amount is None {
            Some(
                Failure::InvalidStampTaxInput(
                    "stated_amount"@,
                    flag_name(flag) + " を指定する場合は記載金額が必要です"@,
                ),
            )
        } else {
            flags_failure(flags.drop_first(), code, stated_amount)
        }
    }
}

/// The failure of the input checks of the calculation, if any: the stated
/// amount against the document's use of it, then each flag.
pub open spec fn context_failure(
    code: StampTaxDocumentCode,
    stated_amount: Option<u64>,
    flags: Seq<StampTaxFlag>,
    usage: StampTaxAmountUsage,
) -> Option<Failure> {
    if usage == StampTaxAmountUsage::Required && stated_amount is None {
        Some(
            Failure::InvalidStampTaxInput(
                "stated_amount"@,
                document_code_name(code) + " には記載金額の指定が必要です"@,
            ),
        )
    } else if usage == StampTaxAmountUsage::Unsupported && stated_amount is Some {
        Some(
            Failure::InvalidStampTaxInput(
                "stated_amount"@,
                document_code_name(code) + " では記載金額を指定できません"@,
            ),
        )
    } else {
        flags_failure(flags, code, stated_amount)
    }
}

/// The view of one breakdown line: rule code, label and tax.
pub open spec fn stamp_step_view(s: StampTaxBreakdownStep) -> (Seq<char>, Seq<char>, u64) {
    (s.rule_code@, s.label@, s.tax_amount@)
}

/// What the calculation gives for a document, once the special rule to
/// apply has been selected (`None` for the document's ordinary rule).
pub open spec fn stamp_tax_resolution(
    r: Result<StampTaxResult, JLawError>,
    stated_amount: Option<u64>,
    document: StampTaxDocumentParams,
    selected: Option<StampTaxSpecialRule>,
) -> bool {
    let resolved = match selected {
        Some(rule) => special_rule_outcome(stated_amount, document, rule),
        None => base_rule_outcome(stated_amount, document),
    };
    let rule_code = match selected {
        Some(rule) => rule.code@,
        None => "base"@,
    };
    match resolved {
        Err(f) => fails_as(r, f),
        Ok((tax, label)) => r matches Ok(res) && {
            &&& res.tax_amount@ == tax
            &&& res.rule_label@ == label
            &&& match selected {
                Some(rule) => res.applied_special_rule matches Some(c) && c@ == rule.code@,
                None => res.applied_special_rule is None,
            }
            &&& res.breakdown@.map_values(|s: StampTaxBreakdownStep| stamp_step_view(s))
                == seq![(rule_code, label, tax)]
        },
    }
}

/// What the stamp tax calculation gives for `ctx` and `params`: the input
/// checks, then the tax under the special rule that `ctx.policy` selects
/// for `ctx` and the document's parameters.
pub open spec fn stamp_tax_outcome<P: StampTaxPolicy>(
    r: Result<StampTaxResult, JLawError>,
    ctx: StampTaxContext<P>,
    params: StampTaxParams,
) -> bool {
    let d = ctx.target_date;
    let docs = params.documents@;
    if !is_valid_date(d.year as nat, d.month as nat, d.day as nat) {
        fails_as(r, Failure::InvalidDate(date_text(d), invalid_date_reason(d)))
    } else if !docs.contains_key(ctx.document_code) {
        fails_as(
            r,
            Failure::InvalidStampTaxInput(
                "document_code"@,
                "対象文書コードのパラメータが存在しません: "@ + document_code_name(ctx.document_code),
            ),
        )
    } else {
        let document = docs[ctx.document_code];
        match context_failure(
            ctx.document_code,
            ctx.stated_amount,
            ctx.flags.ordered(),
            document.amount_usage,
        ) {
            Some(f) => fails_as(r, f),
            None => exists|selected: Option<&StampTaxSpecialRule>|
                {
                    &&& call_ensures(P::select_special_rule, (&ctx.policy, &ctx, &document), selected)
                    &&& stamp_tax_resolution(
                        r,
                        ctx.stated_amount,
                        document,
                        match selected {
                            Some(rule) => Some(*rule),
                            None => None,
                        },
                    )
                },
        }
    }
}

/// The tax of an amount table.
fn resolve_amount_table(
    stated_amount: Option<u64>,
    brackets: &Vec<StampTaxBracket>,
    no_amount_tax_amount: Option<u64>,
    no_amount_rule_label: &Option<String>,
    document: &StampTaxDocumentParams,
) -> (r: Result<ResolvedTaxRule, JLawError>)
    ensures
        match amount_table_outcome(
            stated_amount,
            brackets@,
            no_amount_tax_amount,
            optional_text(*no_amount_rule_label),
            document.code,
        ) {
            Ok((tax, label)) => r matches Ok(t) && t.tax_amount == tax && t.rule_label@ == label,
            Err(f) => fails_as(r, f),
        },
{
    match stated_amount {
        Some(amount) => {
            let ghost covers = |b: StampTaxBracket| b.covers(amount);
            let mut i: usize = 0;
            while i < brackets.len()
                invariant
                    0 <= i <= brackets@.len(),
                    covers == (|b: StampTaxBracket| b.covers(amount)),
                    stated_amount == Some(amount),
                    forall|k: int| 0 <= k < i ==> !covers(#[trigger] brackets@[k]),
                decreases brackets@.len() - i,
            {
                if brackets[i].matches(amount) {
                    proof {
                        lemma_first_index(brackets@, covers, i as int);
                    }
                    return Ok(
                        ResolvedTaxRule {
                            tax_amount: brackets[i].tax_amount,
                            rule_label: brackets[i].label.clone(),
                        },
                    );
                }
                i = i + 1;
            }
            proof {
                lemma_first_index(brackets@, covers, brackets@.len() as int);
            }
            let head = join3(document.code.as_str(), " の記載金額 ", "");
            let reason = with_decimal(head.as_str(), amount, "円 に対応する税額区分が見つかりません");
            proof {
                reveal_strlit("");
                assert(reason@ =~= document_code_name(document.code) + " の記載金額 "@
                    + crate::text::decimal(amount as nat) + "円 に対応する税額区分が見つかりません"@);
            }
            Err(not_applicable(reason))
        },
        None => match no_amount_tax_amount {
            None => {
                let reason = join3(document.code.as_str(), " には記載金額の指定が必要です", "");
                proof {
                    reveal_strlit("");
                    assert(reason@ =~= document_code_name(document.code)
                        + " には記載金額の指定が必要です"@);
                }
                Err(
                    JLawError::Input(
                        InputError::InvalidStampTaxInput {
                            field: String::from_str("stated_amount"),
                            reason,
                        },
                    ),
                )
            },
            Some(tax_amount) => {
                let rule_label = match no_amount_rule_label {
                    Some(label) => label.clone(),
                    None => String::from_str("記載金額の記載のないもの"),
                };
                Ok(ResolvedTaxRule { tax_amount, rule_label })
            },
        },
    }
}

/// The tax of a special rule.
fn resolve_special_rule(
    stated_amount: Option<u64>,
    document: &StampTaxDocumentParams,
    rule: &StampTaxSpecialRule,
) -> (r: Result<ResolvedTaxRule, JLawError>)
    ensures
        match special_rule_outcome(stated_amount, *document, *rule) {
            Ok((tax, label)) => r matches Ok(t) && t.tax_amount == tax && t.rule_label@ == label,
            Err(f) => fails_as(r, f),
        },
{
    if let Some(tax_amount) = rule.tax_amount {
        let rule_label = match &rule.rule_label {
            Some(label) => label.clone(),
            None => rule.label.clone(),
        };
        return Ok(ResolvedTaxRule { tax_amount, rule_label });
    }
    if rule.brackets.len() > 0 || rule.no_amount_tax_amount.is_some() {
        return resolve_amount_table(
            stated_amount,
            &rule.brackets,
            rule.no_amount_tax_amount,
            &rule.no_amount_rule_label,
            document,
        );
    }
    let reason = join3("特例ルールの税額定義が不正です: ", rule.code.as_str(), "");
    proof {
        reveal_strlit("");
        assert(reason@ =~= "特例ルールの税額定義が不正です: "@ + rule.code@);
    }
    Err(not_applicable(reason))
}

/// The tax of the document's ordinary rule.
fn resolve_base_rule(stated_amount: Option<u64>, document: &StampTaxDocumentParams) -> (r: Result<
    ResolvedTaxRule,
    JLawError,
>)
    ensures
        match base_rule_outcome(stated_amount, *document) {
            Ok((tax, label)) => r matches Ok(t) && t.tax_amount == tax && t.rule_label@ == label,
            Err(f) => fails_as(r, f),
        },
{
    match document.charge_mode {
        StampTaxChargeMode::AmountBrackets => resolve_amount_table(
            stated_amount,
            &document.brackets,
            document.no_amount_tax_amount,
            &document.no_amount_rule_label,
            document,
        ),
        StampTaxChargeMode::FixedPerDocument | StampTaxChargeMode::FixedPerYear => {
            match document.base_tax_amount {
                Some(tax_amount) => Ok(
                    ResolvedTaxRule { tax_amount, rule_label: document.base_rule_label.clone() },
                ),
                None => {
                    let reason = join3("固定税額が未設定です: ", document.code.as_str(), "");
                    proof {
                        reveal_strlit("");
                        assert(reason@ =~= "固定税額が未設定です: "@ + document_code_name(
                            document.code,
                        ));
                    }
                    Err(not_applicable(reason))
                },
            }
        },
    }
}

/// The check of one given flag against the document and the stated amount.
fn validate_flag_for_document(
    flag: StampTaxFlag,
    document_code: StampTaxDocumentCode,
    stated_amount: Option<u64>,
) -> (r: Result<(), JLawError>)
    ensures
        match flags_failure(seq![flag], document_code, stated_amount) {
            Some(f) => fails_as(r, f),
            None => r is Ok,
        },
{
    let allowed = flag.allowed_document_codes();
    let mut found = false;
    let mut i: usize = 0;
    while i < allowed.len()
        invariant
            allowed@ == flag_documents(flag),
            0 <= i <= allowed@.len(),
            found == exists|k: int| 0 <= k < i && allowed@[k] == document_code,
        decreases allowed@.len() - i,
    {
        if allowed[i] == document_code {
            found = true;
        }
        i = i + 1;
    }
    proof {
        reveal_strlit("");
        reveal_with_fuel(flags_failure, 2);
        assert(seq![flag].drop_first() =~= Seq::<StampTaxFlag>::empty());
        assert(found == flag_documents(flag).contains(document_code));
    }
    if !found {
        let head = join3(flag.as_str(), " は ", document_code.as_str());
        let reason = join3(head.as_str(), " には指定できません", "");
        proof {
            assert(reason@ =~= flag_name(flag) + " は "@ + document_code_name(document_code)
                + " には指定できません"@);
        }
        return Err(
            JLawError::Input(
                InputError::InvalidStampTaxInput { field: String::from_str("flags"), reason },
            ),
        );
    }
    if flag.requires_stated_amount() && stated_amount.is_none() {
        let reason = join3(flag.as_str(), " を指定する場合は記載金額が必要です", "");
        proof {
            assert(reason@ =~= flag_name(flag) + " を指定する場合は記載金額が必要です"@);
        }
        return Err(
            JLawError::Input(
                InputError::InvalidStampTaxInput {
                    field: String::from_str("stated_amount"),
                    reason,
                },
            ),
        );
    }
    Ok(())
}

/// The input checks of the calculation.
fn validate_context<P: StampTaxPolicy>(
    ctx: &StampTaxContext<P>,
    document: &StampTaxDocumentParams,
) -> (r: Result<(), JLawError>)
    ensures
        match context_failure(
            ctx.document_code,
            ctx.stated_amount,
            ctx.flags.ordered(),
            document.amount_usage,
        ) {
            Some(f) => fails_as(r, f),
            None => r is Ok,
        },
{
    proof {
        reveal_strlit("");
    }
    match document.amount_usage {
        StampTaxAmountUsage::Required => {
            if ctx.stated_amount.is_none() {
                let reason = join3(ctx.document_code.as_str(), " には記載金額の指定が必要です", "");
                proof {
                    assert(reason@ =~= document_code_name(ctx.document_code)
                        + " には記載金額の指定が必要です"@);
                }
                return Err(
                    JLawError::Input(
                        InputError::InvalidStampTaxInput {
                            field: String::from_str("stated_amount"),
                            reason,
                        },
                    ),
                );
            }
        },
        StampTaxAmountUsage::Unsupported => {
            if ctx.stated_amount.is_some() {
                let reason = join3(ctx.document_code.as_str(), " では記載金額を指定できません", "");
                proof {
                    assert(reason@ =~= document_code_name(ctx.document_code)
                        + " では記載金額を指定できません"@);
                }
                return Err(
                    JLawError::Input(
                        InputError::InvalidStampTaxInput {
                            field: String::from_str("stated_amount"),
                            reason,
                        },
                    ),
                );
            }
        },
        StampTaxAmountUsage::Optional => {},
    }
    let n = ctx.flags.len();
    proof {
        assert(ctx.flags.ordered().skip(0) =~= ctx.flags.ordered());
    }
    let mut i: usize = 0;
    while i < n
        invariant
            n == ctx.flags.ordered().len(),
            0 <= i <= n,
            context_failure(
                ctx.document_code,
                ctx.stated_amount,
                ctx.flags.ordered(),
                document.amount_usage,
            ) == flags_failure(ctx.flags.ordered(), ctx.document_code, ctx.stated_amount),
            flags_failure(ctx.flags.ordered(), ctx.document_code, ctx.stated_amount) == flags_failure(
                ctx.flags.ordered().skip(i as int),
                ctx.document_code,
                ctx.stated_amount,
            ),
        decreases n - i,
    {
        let flag = ctx.flags.get(i);
        let ghost rest = ctx.flags.ordered().skip(i as int);
        proof {
            assert(rest[0] == flag);
            assert(rest.drop_first() =~= ctx.flags.ordered().skip(i + 1));
            assert(seq![flag].drop_first() =~= Seq::<StampTaxFlag>::empty());
            reveal_with_fuel(flags_failure, 2);
            assert(flags_failure(seq![flag], ctx.document_code, ctx.stated_amount) is Some
                ==> flags_failure(rest, ctx.document_code, ctx.stated_amount) == flags_failure(
                seq![flag],
                ctx.document_code,
                ctx.stated_amount,
            ));
            assert(flags_failure(seq![flag], ctx.document_code, ctx.stated_amount) is None
                ==> flags_failure(rest, ctx.document_code, ctx.stated_amount) == flags_failure(
                rest.drop_first(),
                ctx.document_code,
                ctx.stated_amount,
            ));
        }
        match validate_flag_for_document(flag, ctx.document_code, ctx.stated_amount) {
            Err(e) => {
                return Err(e);
            },
            Ok(()) => {},
        }
        i = i + 1;
    }
    proof {
        assert(ctx.flags.ordered().skip(n as int) =~= Seq::<StampTaxFlag>::empty());
    }
    Ok(())
}

/// Under the standard policy, a special rule is applied only on a date in
/// its period: the rule whose code the result names is one of the
/// document's special rules, its period does not start after the target
/// date and does not end before it.
pub proof fn lemma_standard_policy_applies_rules_in_effect(
    r: Result<StampTaxResult, JLawError>,
    ctx: StampTaxContext<StandardNtaPolicy>,
    params: StampTaxParams,
)
    requires
        stamp_tax_outcome(r, ctx, params),
        r matches Ok(res) && res.applied_special_rule is Some,
    ensures
        exists|i: int|
            #![trigger params.documents@[ctx.document_code].special_rules@[i]]
            {
                let rule = params.documents@[ctx.document_code].special_rules@[i];
                &&& 0 <= i < params.documents@[ctx.document_code].special_rules@.len()
                &&& rule.code@ == r->Ok_0.applied_special_rule->0@
                &&& rule.effective_from matches Some(from) ==> lex_le(
                    from@,
                    date_text(ctx.target_date),
                )
                &&& rule.effective_until matches Some(until) ==> lex_le(
                    date_text(ctx.target_date),
                    until@,
                )
            },
{
    let document = params.documents@[ctx.document_code];
    let selected = choose|selected: Option<&StampTaxSpecialRule>|
        {
            &&& call_ensures(
                StandardNtaPolicy::select_special_rule,
                (&ctx.policy, &ctx, &document),
                selected,
            )
            &&& stamp_tax_resolution(
                r,
                ctx.stated_amount,
                document,
                match selected {
                    Some(rule) => Some(*rule),
                    None => None,
                },
            )
        };
    let rule = *selected->0;
    let i = standard_selection(
        ctx.target_date,
        ctx.stated_amount,
        ctx.flags@,
        document.special_rules@,
    )->0;
    assert(document.special_rules@[i] == rule);
}

/// The stamp tax of a document under Schedule 1 of the Stamp Tax Act.
///
/// Checks the date, finds the document's parameters, checks the stated
/// amount and the flags, then applies the special rule the policy selects,
/// or else the document's ordinary rule.
pub fn calculate_stamp_tax<P: StampTaxPolicy>(
    ctx: &StampTaxContext<P>,
    params: &StampTaxParams,
) -> (r: Result<StampTaxResult, JLawError>)
    ensures
        stamp_tax_outcome(r, *ctx, *params),
{
    match ctx.target_date.validate() {
        Err(e) => {
            return Err(JLawError::Input(e));
        },
        Ok(()) => {},
    }
    let document = match params.document_params(ctx.document_code) {
        Some(d) => d,
        None => {
            let reason = join3(
                "対象文書コードのパラメータが存在しません: ",
                ctx.document_code.as_str(),
                "",
            );
            proof {
                reveal_strlit("");
                assert(reason@ =~= "対象文書コードのパラメータが存在しません: "@
                    + document_code_name(ctx.document_code));
            }
            return Err(
                JLawError::Input(
                    InputError::InvalidStampTaxInput {
                        field: String::from_str("document_code"),
                        reason,
                    },
                ),
            );
        },
    };
    match validate_context(ctx, document) {
        Err(e) => {
            return Err(e);
        },
        Ok(()) => {},
    }
    let special_rule = ctx.policy.select_special_rule(ctx, document);
    let r = calculate_stamp_tax_with_rule(ctx.stated_amount, document, special_rule);
    proof {
        let selected = match special_rule {
            Some(rule) => Some(*rule),
            None => None,
        };
        assert(stamp_tax_resolution(r, ctx.stated_amount, *document, selected));
        assert(call_ensures(P::select_special_rule, (&ctx.policy, ctx, document), special_rule));
    }
    r
}

/// The stamp tax of a document with the special rule to apply given
/// (`None` for the document's ordinary rule): the rule's fixed tax or
/// amount table, else the document's.
pub fn calculate_stamp_tax_with_rule(
    stated_amount: Option<u64>,
    document: &StampTaxDocumentParams,
    special_rule: Option<&StampTaxSpecialRule>,
) -> (r: Result<StampTaxResult, JLawError>)
    ensures
        stamp_tax_resolution(
            r,
            stated_amount,
            *document,
            match special_rule {
                Some(rule) => Some(*rule),
                None => None,
            },
        ),
{
    let (resolved, applied_special_rule, rule_code) = match special_rule {
        Some(rule) => {
            match resolve_special_rule(stated_amount, document, rule) {
                Err(e) => {
                    return Err(e);
                },
                Ok(t) => (t, Some(rule.code.clone()), rule.code.clone()),
            }
        },
        None => {
            match resolve_base_rule(stated_amount, document) {
                Err(e) => {
                    return Err(e);
                },
                Ok(t) => (t, None, String::from_str("base")),
            }
        },
    };
    let mut breakdown = Vec::new();
    breakdown.push(
        StampTaxBreakdownStep {
            rule_code,
            label: resolved.rule_label.clone(),
            tax_amount: FinalAmount::new(resolved.tax_amount),
        },
    );
    let result = StampTaxResult {
        tax_amount: FinalAmount::new(resolved.tax_amount),
        rule_label: resolved.rule_label,
        applied_special_rule,
        breakdown,
    };
    proof {
        assert(result.breakdown@.map_values(|s: StampTaxBreakdownStep| stamp_step_view(s))
            =~= seq![(stamp_step_view(result.breakdown@[0]))]);
    }
    Ok(result)
}

} // verus!
