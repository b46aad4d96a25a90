use vstd::prelude::*;

use crate::domains::income_tax::context::{IncomeTaxContext, IncomeTaxFlag};
use crate::domains::income_tax::params::{IncomeTaxBracket, IncomeTaxParams};
use crate::domains::income_tax::policy::IncomeTaxPolicy;
use crate::error::{
    fails_not_applicable, fails_with_overflow, fails_zero_denominator, overflow, JLawError,
    not_applicable,
};
use crate::flags::FlagSet;
use crate::search::{first_index, lemma_first_index};
use crate::text::{decimal, with_decimal};
use crate::types::amount::{FinalAmount, IntermediateAmount};
use crate::types::date::LegalDate;
use crate::types::rate::{rate_apply_step, MultiplyOrder, Rate};
use crate::types::rounding::{lemma_zero_rounds_to_zero, rounded_ratio, RoundingStrategy};

verus! {

/// The calculation step of the quick table, for the breakdown.
#[derive(Debug, Clone)]
pub struct IncomeTaxStep {
    /// Display name of the bracket (e.g. "330万円超695万円以下").
    pub label: String,
    /// Taxable income, in yen.
    pub taxable_income: u64,
    /// Numerator of the rate applied.
    pub rate_numer: u64,
    /// Denominator of the rate applied.
    pub rate_denom: u64,
    /// Deduction of the quick table, in yen.
    pub deduction: u64,
    /// Tax of this step (taxable income × rate − deduction).
    pub result: FinalAmount,
}

/// The result of the income tax calculation.
///
/// Legal basis: Income Tax Act, Article 89, paragraph 1; reconstruction tax
/// act, Article 13; Act on General Rules for National Taxes, Article 119,
/// paragraph 1.
#[derive(Debug, Clone)]
pub struct IncomeTaxResult {
    /// The base income tax (without reconstruction tax).
    pub base_tax: FinalAmount,
    /// The reconstruction tax (zero when it does not apply).
    pub reconstruction_tax: FinalAmount,
    /// The tax to declare: base tax plus reconstruction tax, with the part
    /// below 100 yen dropped.
    pub total_tax: FinalAmount,
    /// The calculation steps.
    pub breakdown: Vec<IncomeTaxStep>,
    /// The flags given.
    pub applied_flags: FlagSet<IncomeTaxFlag>,
    /// Whether the reconstruction tax was applied.
    pub reconstruction_tax_applied: bool,
}

/// Whether `income` falls in the bracket `b`.
pub open spec fn income_in_bracket(income: nat, b: IncomeTaxBracket) -> bool {
    income >= b.income_from && (b.income_to_inclusive matches Some(to) ==> income <= to)
}

/// `amount` with the part below 100 yen dropped.
pub open spec fn below_100_dropped(amount: nat) -> nat {
    amount / 100 * 100
}

/// The reason given when no bracket covers the taxable income.
pub open spec fn no_bracket_reason(income: nat) -> Seq<char> {
    "課税所得金額 "@ + decimal(income) + "円 に対応する税率ブラケットが見つかりません"@
}

/// The reason given when the reconstruction tax applies but the parameters
/// have none.
pub open spec fn missing_reconstruction_reason() -> Seq<char> {
    "ApplyReconstructionTaxフラグが指定されましたが、パラメータセットに復興特別所得税データが含まれていません"@
}

/// The view of one breakdown step.
pub open spec fn income_step_view(s: IncomeTaxStep) -> (Seq<char>, nat, nat, nat, nat, nat) {
    (
        s.label@,
        s.taxable_income as nat,
        s.rate_numer as nat,
        s.rate_denom as nat,
        s.deduction as nat,
        s.result@ as nat,
    )
}

/// What the income tax calculation gives for taxable `income` under
/// `flags` and `params`, when the policy decides `apply_rt` on the
/// reconstruction tax and rounds the tax by `tax_rounding` and the
/// reconstruction tax by `rt_rounding`.
pub open spec fn income_tax_outcome(
    r: Result<IncomeTaxResult, JLawError>,
    income: nat,
    flags: Set<IncomeTaxFlag>,
    apply_rt: bool,
    tax_rounding: RoundingStrategy,
    rt_rounding: RoundingStrategy,
    params: IncomeTaxParams,
) -> bool {
    let brackets = params.brackets@;
    let idx = first_index(brackets, |b: IncomeTaxBracket| income_in_bracket(income, b));
    let b = brackets[idx];
    let gross = rounded_ratio(
        tax_rounding,
        income * (b.rate_numer as nat),
        b.rate_denom as nat,
    );
    let base = gross - b.deduction;
    let rt = params.reconstruction_tax.unwrap();
    let rt_tax = if apply_rt {
        rounded_ratio(
            rt_rounding,
            (base * rt.rate_numer) as nat,
            rt.rate_denom as nat,
        )
    } else {
        0
    };
    if income == 0 {
        r matches Ok(res) && {
            &&& res.base_tax@ == 0
            &&& res.reconstruction_tax@ == 0
            &&& res.total_tax@ == 0
            &&& res.breakdown@.len() == 0
            &&& res.applied_flags@ == flags
            &&& !res.reconstruction_tax_applied
        }
    } else if idx == brackets.len() {
        fails_not_applicable(r, no_bracket_reason(income))
    } else if b.rate_denom == 0 {
        fails_zero_denominator(r)
    } else if income * b.rate_numer > u64::MAX {
        fails_with_overflow(r, rate_apply_step(income, b.rate_numer as nat))
    } else if base < 0 {
        fails_with_overflow(r, "base_tax_deduction"@)
    } else if apply_rt && params.reconstruction_tax is None {
        fails_not_applicable(r, missing_reconstruction_reason())
    } else if apply_rt && rt.rate_denom == 0 {
        fails_zero_denominator(r)
    } else if apply_rt && base * rt.rate_numer > u64::MAX {
        fails_with_overflow(r, rate_apply_step(base as nat, rt.rate_numer as nat))
    } else if base + rt_tax > u64::MAX {
        fails_with_overflow(r, "total_tax"@)
    } else {
        r matches Ok(res) && {
            &&& res.base_tax@ == base
            &&& res.reconstruction_tax@ == rt_tax
            &&& res.total_tax@ == below_100_dropped((base + rt_tax) as nat)
            &&& res.breakdown@.map_values(|s: IncomeTaxStep| income_step_view(s)) == seq![
                (
                    b.label@,
                    income,
                    b.rate_numer as nat,
                    b.rate_denom as nat,
                    b.deduction as nat,
                    base as nat,
                ),
            ]
            &&& res.applied_flags@ == flags
            &&& res.reconstruction_tax_applied == apply_rt
        }
    }
}

/// What the income tax calculation gives for taxable `income` under `flags`
/// and `params`, for the tax year `target_year`, under the answers that
/// `policy` gives: whether the reconstruction tax applies in that year under
/// those flags, and the roundings of the tax and of the reconstruction tax.
pub open spec fn income_tax_outcome_under_policy<P: IncomeTaxPolicy>(
    r: Result<IncomeTaxResult, JLawError>,
    income: nat,
    target_year: u16,
    flags: FlagSet<IncomeTaxFlag>,
    policy: P,
    params: IncomeTaxParams,
) -> bool {
    exists|apply_rt: bool, tax_rounding: RoundingStrategy, rt_rounding: RoundingStrategy|
        {
            &&& call_ensures(
                P::should_apply_reconstruction_tax,
                (&policy, target_year, &flags),
                apply_rt,
            )
            &&& call_ensures(P::tax_rounding, (&policy,), tax_rounding)
            &&& call_ensures(P::reconstruction_tax_rounding, (&policy,), rt_rounding)
            &&& income_tax_outcome(r, income, flags@, apply_rt, tax_rounding, rt_rounding, params)
        }
}

/// Calculates the income tax under Article 89 of the Income Tax Act.
///
/// 1. Find the bracket that covers the taxable income.
/// 2. Base tax by the quick table: taxable income × rate − deduction.
/// 3. Where the reconstruction tax applies: base tax × 21/1000, rounded by
///    the policy.
/// 4. The tax to declare: base tax plus reconstruction tax, with the part
///    below 100 yen dropped.
pub fn calculate_income_tax<P: IncomeTaxPolicy>(
    ctx: &IncomeTaxContext<P>,
    params: &IncomeTaxParams,
) -> (r: Result<IncomeTaxResult, JLawError>)
    ensures
        income_tax_outcome_under_policy(
            r,
            ctx.taxable_income as nat,
            ctx.target_date.0,
            ctx.flags,
            ctx.policy,
            *params,
        ),
{
    let date = LegalDate::new(ctx.target_date.0, ctx.target_date.1, ctx.target_date.2);
    calculate_income_tax_inner(ctx.taxable_income, date, &ctx.flags, &ctx.policy, params)
}

/// The income tax on taxable `income`, for the tax year of `target_date`,
/// asking `policy` for its decisions.
pub fn calculate_income_tax_inner<P: IncomeTaxPolicy>(
    income: u64,
    target_date: LegalDate,
    flags: &FlagSet<IncomeTaxFlag>,
    policy: &P,
    params: &IncomeTaxParams,
) -> (r: Result<IncomeTaxResult, JLawError>)
    ensures
        income_tax_outcome_under_policy(
            r,
            income as nat,
            target_date.year,
            *flags,
            *policy,
            *params,
        ),
{
    let tax_rounding = policy.tax_rounding();
    let rt_rounding = policy.reconstruction_tax_rounding();
    let apply_rt = policy.should_apply_reconstruction_tax(target_date.year, flags);
    let r = calculate_income_tax_with(income, flags, apply_rt, tax_rounding, rt_rounding, params);
    proof {
        assert(income_tax_outcome(
            r,
            income as nat,
            flags@,
            apply_rt,
            tax_rounding,
            rt_rounding,
            *params,
        ));
    }
    r
}

/// The income tax on taxable `income`, with the policy's answers given:
/// whether the reconstruction tax applies, and the roundings of the tax and
/// of the reconstruction tax.
pub fn calculate_income_tax_with(
    income: u64,
    flags: &FlagSet<IncomeTaxFlag>,
    apply_reconstruction: bool,
    tax_rounding: RoundingStrategy,
    rt_rounding: RoundingStrategy,
    params: &IncomeTaxParams,
) -> (r: Result<IncomeTaxResult, JLawError>)
    ensures
        income_tax_outcome(
            r,
            income as nat,
            flags@,
            apply_reconstruction,
            tax_rounding,
            rt_rounding,
            *params,
        ),
{

    if income == 0 {
        return Ok(
            IncomeTaxResult {
                base_tax: FinalAmount::new(0),
                reconstruction_tax: FinalAmount::new(0),
                total_tax: FinalAmount::new(0),
                breakdown: Vec::new(),
                applied_flags: flags.duplicate(),
                reconstruction_tax_applied: false,
            },
        );
    }

    let ghost matches = |b: IncomeTaxBracket| income_in_bracket(income as nat, b);
    let mut i: usize = 0;
    while i < params.brackets.len()
        invariant
            0 <= i <= params.brackets@.len(),
            matches == (|b: IncomeTaxBracket| income_in_bracket(income as nat, b)),
            forall|k: int| 0 <= k < i ==> !matches(#[trigger] params.brackets@[k]),
        ensures
            0 <= i <= params.brackets@.len(),
            i == params.brackets@.len() || matches(params.brackets@[i as int]),
        decreases params.brackets@.len() - i,
    {
        let b = &params.brackets[i];
        let inside = income >= b.income_from && match b.income_to_inclusive {
            Some(to) => income <= to,
            None => true,
        };
        if inside {
            break;
        }
        i = i + 1;
    }
    proof {
        lemma_first_index(params.brackets@, matches, i as int);
    }
    if i == params.brackets.len() {
        return Err(
            not_applicable(
                with_decimal("課税所得金額 ", income, "円 に対応する税率ブラケットが見つかりません"),
            ),
        );
    }
    let bracket = &params.brackets[i];

    let rate = Rate { numer: bracket.rate_numer, denom: bracket.rate_denom };
    let gross = rate.apply(&IntermediateAmount::from_exact(income), MultiplyOrder::MultiplyFirst, tax_rounding)?;
    proof {
        lemma_zero_rounds_to_zero(tax_rounding, 1);
    }
    let gross_tax = gross.finalize(tax_rounding)?;

    let base_tax_yen = match gross_tax.as_yen().checked_sub(bracket.deduction) {
        Some(v) => v,
        None => return Err(overflow("base_tax_deduction")),
    };
    let base_tax = FinalAmount::new(base_tax_yen);

    let mut breakdown: Vec<IncomeTaxStep> = Vec::new();
    breakdown.push(
        IncomeTaxStep {
            label: bracket.label.clone(),
            taxable_income: income,
            rate_numer: bracket.rate_numer,
            rate_denom: bracket.rate_denom,
            deduction: bracket.deduction,
            result: base_tax,
        },
    );
    proof {
        assert(breakdown@.map_values(|s: IncomeTaxStep| income_step_view(s)) =~= seq![
            income_step_view(breakdown@[0]),
        ]);
    }


    let reconstruction_tax_yen = if apply_reconstruction {
        match &params.reconstruction_tax {
            Some(rt_params) => {
                let rt_rate = Rate { numer: rt_params.rate_numer, denom: rt_params.rate_denom };
                let rt = rt_rate.apply(
                    &IntermediateAmount::from_exact(base_tax_yen),
                    MultiplyOrder::MultiplyFirst,
                    rt_rounding,
                )?;
                proof {
                    lemma_zero_rounds_to_zero(rt_rounding, 1);
                }
                rt.finalize(rt_rounding)?.as_yen()
            },
            None => {
                return Err(
                    not_applicable(
                        String::from_str(
                            "ApplyReconstructionTaxフラグが指定されましたが、パラメータセットに復興特別所得税データが含まれていません",
                        ),
                    ),
                );
            },
        }
    } else {
        0
    };

    let reconstruction_tax = FinalAmount::new(reconstruction_tax_yen);

    let total_before_truncation = match base_tax_yen.checked_add(reconstruction_tax_yen) {
        Some(t) => t,
        None => return Err(overflow("total_tax")),
    };
    let total_tax = FinalAmount::new(truncate_below_100(total_before_truncation));

    Ok(
        IncomeTaxResult {
            base_tax,
            reconstruction_tax,
            total_tax,
            breakdown,
            applied_flags: flags.duplicate(),
            reconstruction_tax_applied: apply_reconstruction,
        },
    )
}

/// Drops the part below 100 yen (Act on General Rules for National Taxes,
/// Article 119, paragraph 1).
pub fn truncate_below_100(amount: u64) -> (r: u64)
    ensures
        r == below_100_dropped(amount as nat),
{
    amount / 100 * 100
}

} // verus!
