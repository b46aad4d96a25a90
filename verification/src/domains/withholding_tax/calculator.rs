use vstd::prelude::*;

use crate::domains::withholding_tax::context::{
    category_name, WithholdingTaxCategory, WithholdingTaxContext, WithholdingTaxFlag,
};
use crate::domains::withholding_tax::params::{
    WithholdingTaxCategoryParams, WithholdingTaxMethod, WithholdingTaxParams,
};
use crate::domains::withholding_tax::policy::WithholdingTaxPolicy;
use crate::error::{fails_as, overflow, Failure, InputError, JLawError, not_applicable};
use crate::flags::FlagSet;
use crate::search::{first_index, lemma_first_index};
use crate::text::{decimal, join3, with_decimal};
use crate::types::amount::{FinalAmount, IntermediateAmount};
use crate::types::rate::{rate_apply_step, MultiplyOrder, Rate};
use crate::types::rounding::{
    lemma_rounding_monotone, lemma_zero_rounds_to_zero, rounded_ratio, RoundingStrategy,
};

verus! {

/// One line of the withholding breakdown.
#[derive(Debug, Clone)]
pub struct WithholdingTaxStep {
    /// The label of the line.
    pub label: String,
    /// The amount the line applies to, in yen.
    pub base_amount: u64,
    /// Numerator of the rate.
    pub rate_numer: u64,
    /// Denominator of the rate.
    pub rate_denom: u64,
    /// The tax of the line, in yen.
    pub result: FinalAmount,
}

/// The result of the withholding tax calculation.
///
/// Legal basis: Income Tax Act, Article 204, paragraph 1; reconstruction
/// tax act.
#[derive(Debug, Clone)]
pub struct WithholdingTaxResult {
    /// The total paid, in yen.
    pub gross_payment_amount: FinalAmount,
    /// The amount the withholding is calculated on, in yen.
    pub taxable_payment_amount: FinalAmount,
    /// The tax withheld, in yen.
    pub tax_amount: FinalAmount,
    /// The total paid less the tax withheld, in yen.
    pub net_payment_amount: FinalAmount,
    /// The category applied.
    pub category: WithholdingTaxCategory,
    /// The display label of the category.
    pub category_label: String,
    /// Whether the contest prize exemption was applied.
    pub submission_prize_exempted: bool,
    /// The flags given.
    pub applied_flags: FlagSet<WithholdingTaxFlag>,
    /// The breakdown.
    pub breakdown: Vec<WithholdingTaxStep>,
}

/// The view of one breakdown line: label, base, rate and tax.
pub open spec fn withholding_step_view(s: WithholdingTaxStep) -> (Seq<char>, nat, nat, nat, nat) {
    (s.label@, s.base_amount as nat, s.rate_numer as nat, s.rate_denom as nat, s.result@ as nat)
}

/// The failure of applying the rate `numer / denom` to `amount`, if any.
pub open spec fn rate_failure(amount: nat, numer: nat, denom: nat) -> Option<Failure> {
    if denom == 0 {
        Some(Failure::ZeroDenominator)
    } else if amount * numer > u64::MAX {
        Some(Failure::Overflow(rate_apply_step(amount, numer)))
    } else {
        None
    }
}

/// The part of `amount` up to the threshold.
pub open spec fn lower_part(amount: nat, threshold: nat) -> nat {
    if amount <= threshold {
        amount
    } else {
        threshold
    }
}

/// The part of `amount` above the threshold.
pub open spec fn upper_part(amount: nat, threshold: nat) -> nat {
    if amount >= threshold {
        (amount - threshold) as nat
    } else {
        0
    }
}

/// The tax of the two-tier method on `amount`: the rounded tax of the part
/// up to the threshold plus, where there is a part above it, the rounded tax
/// of that part; or the failure met.
pub open spec fn two_tier_tax(
    amount: nat,
    threshold: nat,
    base_numer: nat,
    base_denom: nat,
    excess_numer: nat,
    excess_denom: nat,
    rounding: RoundingStrategy,
) -> Result<nat, Failure> {
    let base = lower_part(amount, threshold);
    let excess = upper_part(amount, threshold);
    let base_tax = rounded_ratio(rounding, base * base_numer, base_denom);
    let excess_tax = rounded_ratio(rounding, excess * excess_numer, excess_denom);
    if rate_failure(base, base_numer, base_denom) is Some {
        Err(rate_failure(base, base_numer, base_denom)->0)
    } else if excess == 0 {
        Ok(base_tax)
    } else if rate_failure(excess, excess_numer, excess_denom) is Some {
        Err(rate_failure(excess, excess_numer, excess_denom)->0)
    } else if base_tax + excess_tax > u64::MAX {
        Err(Failure::Overflow("withholding_tax_total"@))
    } else {
        Ok(base_tax + excess_tax)
    }
}

/// The breakdown lines of the two-tier method on `amount`.
pub open spec fn two_tier_steps(
    amount: nat,
    threshold: nat,
    base_numer: nat,
    base_denom: nat,
    excess_numer: nat,
    excess_denom: nat,
    rounding: RoundingStrategy,
) -> Seq<(Seq<char>, nat, nat, nat, nat)> {
    let base = lower_part(amount, threshold);
    let excess = upper_part(amount, threshold);
    let base_line = (
        decimal(threshold) + "円以下の部分"@,
        base,
        base_numer,
        base_denom,
        rounded_ratio(rounding, base * base_numer, base_denom),
    );
    let excess_line = (
        decimal(threshold) + "円超の部分"@,
        excess,
        excess_numer,
        excess_denom,
        rounded_ratio(rounding, excess * excess_numer, excess_denom),
    );
    if excess == 0 {
        seq![base_line]
    } else {
        seq![base_line, excess_line]
    }
}

/// What the withholding tax calculation gives for `ctx` and `params` when
/// the policy decides `exempt` on the contest prize exemption and rounds by
/// `rounding`.
pub open spec fn withholding_outcome<P: WithholdingTaxPolicy>(
    r: Result<WithholdingTaxResult, JLawError>,
    ctx: WithholdingTaxContext<P>,
    params: WithholdingTaxParams,
    exempt: bool,
    rounding: RoundingStrategy,
) -> bool {
    let taxable = ctx.payment_amount - ctx.separated_consumption_tax_amount;
    let cats = params.categories@;
    let idx = first_index(cats, |c: WithholdingTaxCategoryParams| c.category == ctx.category);
    let cp = cats[idx];
    let common = r matches Ok(res) ==> {
        &&& res.gross_payment_amount@ == ctx.payment_amount
        &&& res.taxable_payment_amount@ == taxable
        &&& res.net_payment_amount@ == ctx.payment_amount - res.tax_amount@
        &&& res.category == ctx.category
        &&& res.category_label@ == cp.label@
        &&& res.submission_prize_exempted == exempt
        &&& res.applied_flags@ == ctx.flags@
    };
    if taxable < 0 {
        fails_as(
            r,
            Failure::InvalidWithholdingInput(
                "separated_consumption_tax_amount"@,
                "消費税額が支払総額を超えています"@,
            ),
        )
    } else if idx == cats.len() {
        fails_as(
            r,
            Failure::NotApplicable(
                "カテゴリ "@ + category_name(ctx.category)
                    + " に対応する源泉徴収パラメータが見つかりません"@,
            ),
        )
    } else if exempt || taxable == 0 {
        common && (r matches Ok(res) && res.tax_amount@ == 0 && res.breakdown@.len() == 0)
    } else {
        match cp.method {
            WithholdingTaxMethod::TwoTier {
                threshold,
                base_rate_numer,
                base_rate_denom,
                excess_rate_numer,
                excess_rate_denom,
            } => match two_tier_tax(
                taxable as nat,
                threshold as nat,
                base_rate_numer as nat,
                base_rate_denom as nat,
                excess_rate_numer as nat,
                excess_rate_denom as nat,
                rounding,
            ) {
                Err(f) => fails_as(r, f),
                Ok(tax) => if tax > ctx.payment_amount {
                    fails_as(r, Failure::Overflow("net_payment_amount"@))
                } else {
                    common && (r matches Ok(res) && res.tax_amount@ == tax
                        && res.breakdown@.map_values(|s: WithholdingTaxStep| withholding_step_view(s))
                        == two_tier_steps(
                        taxable as nat,
                        threshold as nat,
                        base_rate_numer as nat,
                        base_rate_denom as nat,
                        excess_rate_numer as nat,
                        excess_rate_denom as nat,
                        rounding,
                    ))
                },
            },
        }
    }
}

/// The two-tier tax does not fall when the amount rises.
proof fn lemma_two_tier_tax_monotone(
    a1: nat,
    a2: nat,
    threshold: nat,
    base_numer: nat,
    base_denom: nat,
    excess_numer: nat,
    excess_denom: nat,
    rounding: RoundingStrategy,
)
    requires
        a1 <= a2,
        two_tier_tax(a1, threshold, base_numer, base_denom, excess_numer, excess_denom, rounding) is Ok,
        two_tier_tax(a2, threshold, base_numer, base_denom, excess_numer, excess_denom, rounding) is Ok,
    ensures
        two_tier_tax(a1, threshold, base_numer, base_denom, excess_numer, excess_denom, rounding)->Ok_0
            <= two_tier_tax(a2, threshold, base_numer, base_denom, excess_numer, excess_denom, rounding)->Ok_0,
{
    let l1 = lower_part(a1, threshold);
    let l2 = lower_part(a2, threshold);
    let u1 = upper_part(a1, threshold);
    let u2 = upper_part(a2, threshold);
    assert(l1 <= l2 && u1 <= u2);
    assert(l1 * base_numer <= l2 * base_numer) by (nonlinear_arith)
        requires
            l1 <= l2,
    ;
    lemma_rounding_monotone(rounding, l1 * base_numer, l2 * base_numer, base_denom);
    if u1 > 0 {
        assert(u1 * excess_numer <= u2 * excess_numer) by (nonlinear_arith)
            requires
                u1 <= u2,
        ;
        lemma_rounding_monotone(rounding, u1 * excess_numer, u2 * excess_numer, excess_denom);
    }
}

/// Without the contest prize exemption, the tax withheld does not fall when
/// the payment rises: between two calculations on the same parameters,
/// category, separately stated consumption tax and rounding whose results
/// are both `Ok`, the one on the larger payment has at least the taxable
/// amount and at least the tax.
pub proof fn lemma_withholding_tax_monotone_in_payment<P: WithholdingTaxPolicy>(
    r1: Result<WithholdingTaxResult, JLawError>,
    r2: Result<WithholdingTaxResult, JLawError>,
    ctx1: WithholdingTaxContext<P>,
    ctx2: WithholdingTaxContext<P>,
    params: WithholdingTaxParams,
    rounding: RoundingStrategy,
)
    requires
        ctx1.category == ctx2.category,
        ctx1.separated_consumption_tax_amount == ctx2.separated_consumption_tax_amount,
        ctx1.payment_amount <= ctx2.payment_amount,
        withholding_outcome(r1, ctx1, params, false, rounding),
        withholding_outcome(r2, ctx2, params, false, rounding),
        r1 is Ok,
        r2 is Ok,
    ensures
        r1->Ok_0.taxable_payment_amount@ <= r2->Ok_0.taxable_payment_amount@,
        r1->Ok_0.tax_amount@ <= r2->Ok_0.tax_amount@,
{
    let t1 = ctx1.payment_amount - ctx1.separated_consumption_tax_amount;
    let t2 = ctx2.payment_amount - ctx2.separated_consumption_tax_amount;
    let cats = params.categories@;
    let idx = first_index(cats, |c: WithholdingTaxCategoryParams| c.category == ctx1.category);
    let cp = cats[idx];
    if t1 > 0 {
        match cp.method {
            WithholdingTaxMethod::TwoTier {
                threshold,
                base_rate_numer,
                base_rate_denom,
                excess_rate_numer,
                excess_rate_denom,
            } => {
                lemma_two_tier_tax_monotone(
                    t1 as nat,
                    t2 as nat,
                    threshold as nat,
                    base_rate_numer as nat,
                    base_rate_denom as nat,
                    excess_rate_numer as nat,
                    excess_rate_denom as nat,
                    rounding,
                );
            },
        }
    }
}

/// Without the contest prize exemption, the two tiers split the taxable
/// amount: where it is at most the threshold, one line takes all of it at
/// the base rate; above the threshold, the first line takes the threshold
/// at the base rate and the second takes all the rest at the excess rate,
/// so the two bases add up to the taxable amount. The tax is the rounded
/// tax of each part at its own rate, summed.
pub proof fn lemma_two_tier_bases_split_taxable<P: WithholdingTaxPolicy>(
    r: Result<WithholdingTaxResult, JLawError>,
    ctx: WithholdingTaxContext<P>,
    params: WithholdingTaxParams,
    rounding: RoundingStrategy,
    i: int,
)
    requires
        withholding_outcome(r, ctx, params, false, rounding),
        r is Ok,
        ctx.payment_amount > ctx.separated_consumption_tax_amount,
        0 <= i < params.categories@.len(),
        params.categories@[i].category == ctx.category,
        forall|k: int| 0 <= k < i ==> #[trigger] params.categories@[k].category != ctx.category,
    ensures
        ({
            let res = r->Ok_0;
            let a = (ctx.payment_amount - ctx.separated_consumption_tax_amount) as nat;
            let steps = res.breakdown@;
            match params.categories@[i].method {
                WithholdingTaxMethod::TwoTier {
                    threshold,
                    base_rate_numer,
                    base_rate_denom,
                    excess_rate_numer,
                    excess_rate_denom,
                } => {
                    &&& res.taxable_payment_amount@ == a
                    &&& a <= threshold ==> {
                        &&& steps.len() == 1
                        &&& steps[0].base_amount == a
                        &&& res.tax_amount@ == rounded_ratio(
                            rounding,
                            a * (base_rate_numer as nat),
                            base_rate_denom as nat,
                        )
                    }
                    &&& a > threshold ==> {
                        &&& steps.len() == 2
                        &&& steps[0].base_amount == threshold
                        &&& steps[1].base_amount == a - threshold
                        &&& steps[0].base_amount + steps[1].base_amount == a
                        &&& res.tax_amount@ == rounded_ratio(
                            rounding,
                            (threshold as nat) * (base_rate_numer as nat),
                            base_rate_denom as nat,
                        ) + rounded_ratio(
                            rounding,
                            ((a - threshold) as nat) * (excess_rate_numer as nat),
                            excess_rate_denom as nat,
                        )
                    }
                },
            }
        }),
{
    let cats = params.categories@;
    let matches = |c: WithholdingTaxCategoryParams| c.category == ctx.category;
    lemma_first_index(cats, matches, i);
    let res = r->Ok_0;
    let steps = res.breakdown@;
    let views = steps.map_values(|s: WithholdingTaxStep| withholding_step_view(s));
    assert(views.len() == steps.len());
    assert(views[0] == withholding_step_view(steps[0]));
    if steps.len() > 1 {
        assert(views[1] == withholding_step_view(steps[1]));
    }
}

/// Calculates the tax withheld from a fee under Article 204, paragraph 1,
/// of the Income Tax Act (National Tax Agency Tax Answers No. 2795, 2798,
/// 2810).
///
/// 1. The consumption tax stated separately is taken off the total paid.
/// 2. The category selects the method of calculation.
/// 3. Under the contest prize exemption the tax is zero.
/// 4. The part up to the threshold and the part above it each take their
///    rate, with fractions of a yen dropped, and are summed.
pub fn calculate_withholding_tax<P: WithholdingTaxPolicy>(
    ctx: &WithholdingTaxContext<P>,
    params: &WithholdingTaxParams,
) -> (r: Result<WithholdingTaxResult, JLawError>)
    ensures
        withholding_outcome_under_policy(r, *ctx, *params),
{
    let rounding = ctx.policy.tax_rounding();
    let i = category_index(params, ctx.category);
    let exempt = if ctx.separated_consumption_tax_amount <= ctx.payment_amount && i
        < params.categories.len() {
        ctx.policy.should_apply_submission_prize_exemption(
            ctx.category,
            ctx.payment_amount - ctx.separated_consumption_tax_amount,
            &ctx.flags,
            params.categories[i].submission_prize_exemption_threshold,
        )
    } else {
        false
    };
    let r = calculate_withholding_tax_with(ctx, params, exempt, rounding);
    proof {
        assert(withholding_outcome(r, *ctx, *params, exempt, rounding));
    }
    r
}

/// What the withholding tax calculation gives for `ctx` and `params` under
/// the answers that `ctx.policy` gives: the rounding of each tier's tax,
/// and, once the taxable amount and the category's parameters are found,
/// whether the contest prize exemption applies to the category, the taxable
/// amount, `ctx.flags` and the category's exemption threshold.
pub open spec fn withholding_outcome_under_policy<P: WithholdingTaxPolicy>(
    r: Result<WithholdingTaxResult, JLawError>,
    ctx: WithholdingTaxContext<P>,
    params: WithholdingTaxParams,
) -> bool {
    let cats = params.categories@;
    let idx = first_index(cats, |c: WithholdingTaxCategoryParams| c.category == ctx.category);
    exists|exempt: bool, rounding: RoundingStrategy|
        {
            &&& call_ensures(P::tax_rounding, (&ctx.policy,), rounding)
            &&& (ctx.separated_consumption_tax_amount <= ctx.payment_amount && idx < cats.len())
                ==> call_ensures(
                P::should_apply_submission_prize_exemption,
                (
                    &ctx.policy,
                    ctx.category,
                    (ctx.payment_amount - ctx.separated_consumption_tax_amount) as u64,
                    &ctx.flags,
                    cats[idx].submission_prize_exemption_threshold,
                ),
                exempt,
            )
            &&& withholding_outcome(r, ctx, params, exempt, rounding)
        }
}

/// The position of the first parameters of `category`, or the number of
/// entries when none has it.
fn category_index(params: &WithholdingTaxParams, category: WithholdingTaxCategory) -> (i: usize)
    ensures
        i == first_index(
            params.categories@,
            |c: WithholdingTaxCategoryParams| c.category == category,
        ),
        i <= params.categories@.len(),
{
    let ghost matches = |c: WithholdingTaxCategoryParams| c.category == category;
    let mut i: usize = 0;
    while i < params.categories.len()
        invariant
            0 <= i <= params.categories@.len(),
            matches == (|c: WithholdingTaxCategoryParams| c.category == category),
            forall|k: int| 0 <= k < i ==> !matches(#[trigger] params.categories@[k]),
        ensures
            0 <= i <= params.categories@.len(),
            i == params.categories@.len() || matches(params.categories@[i as int]),
        decreases params.categories@.len() - i,
    {
        if params.categories[i].category == category {
            break;
        }
        i = i + 1;
    }
    proof {
        lemma_first_index(params.categories@, matches, i as int);
    }
    i
}

/// The tax withheld for `ctx` and `params`, with the policy's answers given:
/// whether the contest prize exemption applies, and the rounding of each
/// tier's tax.
pub fn calculate_withholding_tax_with<P: WithholdingTaxPolicy>(
    ctx: &WithholdingTaxContext<P>,
    params: &WithholdingTaxParams,
    exempted: bool,
    rounding: RoundingStrategy,
) -> (r: Result<WithholdingTaxResult, JLawError>)
    ensures
        withholding_outcome(r, *ctx, *params, exempted, rounding),
{
    let taxable_payment_amount = match ctx.payment_amount.checked_sub(
        ctx.separated_consumption_tax_amount,
    ) {
        Some(v) => v,
        None => return Err(
            JLawError::Input(
                InputError::InvalidWithholdingInput {
                    field: String::from_str("separated_consumption_tax_amount"),
                    reason: String::from_str("消費税額が支払総額を超えています"),
                },
            ),
        ),
    };

    let i = category_index(params, ctx.category);
    if i == params.categories.len() {
        return Err(
            not_applicable(
                join3(
                    "カテゴリ ",
                    ctx.category.as_str(),
                    " に対応する源泉徴収パラメータが見つかりません",
                ),
            ),
        );
    }
    let category_params = &params.categories[i];

    if exempted || taxable_payment_amount == 0 {
        return Ok(
            WithholdingTaxResult {
                gross_payment_amount: FinalAmount::new(ctx.payment_amount),
                taxable_payment_amount: FinalAmount::new(taxable_payment_amount),
                tax_amount: FinalAmount::new(0),
                net_payment_amount: FinalAmount::new(ctx.payment_amount),
                category: ctx.category,
                category_label: category_params.label.clone(),
                submission_prize_exempted: exempted,
                applied_flags: ctx.flags.duplicate(),
                breakdown: Vec::new(),
            },
        );
    }

    let (tax_amount, breakdown) = match category_params.method {
        WithholdingTaxMethod::TwoTier {
            threshold,
            base_rate_numer,
            base_rate_denom,
            excess_rate_numer,
            excess_rate_denom,
        } => calculate_two_tier(
            taxable_payment_amount,
            threshold,
            base_rate_numer,
            base_rate_denom,
            excess_rate_numer,
            excess_rate_denom,
            rounding,
        )?,
    };

    let net_payment_amount = match ctx.payment_amount.checked_sub(tax_amount.as_yen()) {
        Some(v) => v,
        None => return Err(overflow("net_payment_amount")),
    };

    Ok(
        WithholdingTaxResult {
            gross_payment_amount: FinalAmount::new(ctx.payment_amount),
            taxable_payment_amount: FinalAmount::new(taxable_payment_amount),
            tax_amount,
            net_payment_amount: FinalAmount::new(net_payment_amount),
            category: ctx.category,
            category_label: category_params.label.clone(),
            submission_prize_exempted: false,
            applied_flags: ctx.flags.duplicate(),
            breakdown,
        },
    )
}

/// The tax and breakdown of the two-tier method.
fn calculate_two_tier(
    amount: u64,
    threshold: u64,
    base_rate_numer: u64,
    base_rate_denom: u64,
    excess_rate_numer: u64,
    excess_rate_denom: u64,
    rounding: RoundingStrategy,
) -> (r: Result<(FinalAmount, Vec<WithholdingTaxStep>), JLawError>)
    ensures
        match two_tier_tax(
            amount as nat,
            threshold as nat,
            base_rate_numer as nat,
            base_rate_denom as nat,
            excess_rate_numer as nat,
            excess_rate_denom as nat,
            rounding,
        ) {
            Err(f) => fails_as(r, f),
            Ok(tax) => r matches Ok((t, steps)) && t@ == tax && steps@.map_values(
                |s: WithholdingTaxStep| withholding_step_view(s),
            ) == two_tier_steps(
                amount as nat,
                threshold as nat,
                base_rate_numer as nat,
                base_rate_denom as nat,
                excess_rate_numer as nat,
                excess_rate_denom as nat,
                rounding,
            ),
        },
        r matches Ok((t, steps)) ==> (amount <= threshold ==> steps@.len() == 1
            && steps@[0].base_amount == amount),
        r matches Ok((t, steps)) ==> (amount > threshold ==> steps@.len() == 2
            && steps@[0].base_amount == threshold && steps@[1].base_amount == amount - threshold),
{
    let base_amount = if amount <= threshold {
        amount
    } else {
        threshold
    };
    let excess_amount = amount.saturating_sub(threshold);

    let mut breakdown: Vec<WithholdingTaxStep> = Vec::new();
    let base_tax = apply_rate(base_amount, base_rate_numer, base_rate_denom, rounding)?;
    breakdown.push(
        WithholdingTaxStep {
            label: with_decimal("", threshold, "円以下の部分"),
            base_amount,
            rate_numer: base_rate_numer,
            rate_denom: base_rate_denom,
            result: base_tax,
        },
    );
    proof {
        reveal_strlit("");
        assert(breakdown@[0].label@ =~= decimal(threshold as nat) + "円以下の部分"@);
    }

    let mut total_tax = base_tax.as_yen();

    if excess_amount > 0 {
        let excess_tax = apply_rate(excess_amount, excess_rate_numer, excess_rate_denom, rounding)?;
        total_tax = match total_tax.checked_add(excess_tax.as_yen()) {
            Some(v) => v,
            None => return Err(overflow("withholding_tax_total")),
        };
        breakdown.push(
            WithholdingTaxStep {
                label: with_decimal("", threshold, "円超の部分"),
                base_amount: excess_amount,
                rate_numer: excess_rate_numer,
                rate_denom: excess_rate_denom,
                result: excess_tax,
            },
        );
        proof {
            assert(breakdown@[1].label@ =~= decimal(threshold as nat) + "円超の部分"@);
        }
    }
    proof {
        let expected = two_tier_steps(
            amount as nat,
            threshold as nat,
            base_rate_numer as nat,
            base_rate_denom as nat,
            excess_rate_numer as nat,
            excess_rate_denom as nat,
            rounding,
        );
        assert(breakdown@.map_values(|s: WithholdingTaxStep| withholding_step_view(s)) =~= expected);
    }

    Ok((FinalAmount::new(total_tax), breakdown))
}

/// The tax on `amount` at the rate `rate_numer / rate_denom`, rounded by
/// `rounding`.
fn apply_rate(amount: u64, rate_numer: u64, rate_denom: u64, rounding: RoundingStrategy) -> (r:
    Result<FinalAmount, JLawError>)
    ensures
        match rate_failure(amount as nat, rate_numer as nat, rate_denom as nat) {
            Some(f) => fails_as(r, f),
            None => r matches Ok(t) && t@ == rounded_ratio(
                rounding,
                (amount as nat) * (rate_numer as nat),
                rate_denom as nat,
            ),
        },
{
    let rate = Rate { numer: rate_numer, denom: rate_denom };
    let applied = rate.apply(&IntermediateAmount::from_exact(amount), MultiplyOrder::MultiplyFirst, rounding)?;
    proof {
        lemma_zero_rounds_to_zero(rounding, 1);
    }
    Ok(applied.finalize(rounding)?)
}

} // verus!
