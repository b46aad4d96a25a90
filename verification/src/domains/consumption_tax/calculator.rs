use vstd::prelude::*;

use crate::domains::consumption_tax::context::{ConsumptionTaxContext, ConsumptionTaxFlag};
use crate::domains::consumption_tax::params::{ConsumptionTaxParams, ConsumptionTaxRate};
use crate::domains::consumption_tax::policy::ConsumptionTaxPolicy;
use crate::error::{
    fails_not_applicable, fails_with_overflow, fails_zero_denominator, overflow, CalculationError,
    JLawError,
};
use crate::flags::FlagSet;
use crate::text::join3;
use crate::types::amount::{FinalAmount, IntermediateAmount};
use crate::types::date::date_text;
use crate::types::rate::{rate_apply_step, MultiplyOrder, Rate};
use crate::types::rounding::{lemma_zero_rounds_to_zero, rounded_ratio, RoundingStrategy};

verus! {

/// The result of the consumption tax calculation.
#[derive(Debug, Clone)]
pub struct ConsumptionTaxResult {
    /// The tax amount (fractions dropped by the policy's rounding).
    pub tax_amount: FinalAmount,
    /// The amount including tax (taxable amount plus tax).
    pub amount_with_tax: FinalAmount,
    /// The taxable amount (excluding tax); equal to `ctx.amount`.
    pub amount_without_tax: FinalAmount,
    /// The numerator of the rate applied.
    pub applied_rate_numer: u64,
    /// The denominator of the rate applied.
    pub applied_rate_denom: u64,
    /// Whether the reduced rate was applied.
    pub is_reduced_rate: bool,
    /// The flags given.
    pub applied_flags: FlagSet<ConsumptionTaxFlag>,
}

/// The tax on `amount` at `rate`: zero for a zero rate, else the product
/// rounded by `rounding`.
pub open spec fn consumption_tax_on(amount: nat, rate: ConsumptionTaxRate, rounding: RoundingStrategy) -> nat {
    if rate.numer == 0 {
        0
    } else {
        rounded_ratio(rounding, amount * (rate.numer as nat), rate.denom as nat)
    }
}

/// The reason given when the reduced rate is asked for on a date that has
/// none.
pub open spec fn missing_reduced_rate_reason(date: Seq<char>) -> Seq<char> {
    "軽減税率フラグが指定されましたが、対象日("@ + date + ")の消費税パラメータに軽減税率が存在しません"@
}

/// What the consumption tax calculation gives for `ctx` and `params` when
/// the policy decides `reduced` on the reduced rate and rounds by
/// `rounding`.
pub open spec fn consumption_tax_outcome<P: ConsumptionTaxPolicy>(
    r: Result<ConsumptionTaxResult, JLawError>,
    ctx: ConsumptionTaxContext<P>,
    params: ConsumptionTaxParams,
    reduced: bool,
    rounding: RoundingStrategy,
) -> bool {
    let missing = reduced && params.reduced_rate is None;
    let rate = if reduced {
        params.reduced_rate.unwrap()
    } else {
        params.standard_rate
    };
    let zero_denom = !missing && rate.numer != 0 && rate.denom == 0;
    let product_overflow = !missing && rate.numer != 0 && rate.denom != 0 && ctx.amount
        * rate.numer > u64::MAX;
    let tax = consumption_tax_on(ctx.amount as nat, rate, rounding);
    let total_overflow = !missing && !zero_denom && !product_overflow && ctx.amount + tax
        > u64::MAX;
    &&& missing ==> fails_not_applicable(
        r,
        missing_reduced_rate_reason(date_text(ctx.target_date)),
    )
    &&& zero_denom ==> fails_zero_denominator(r)
    &&& product_overflow ==> fails_with_overflow(
        r,
        rate_apply_step(ctx.amount as nat, rate.numer as nat),
    )
    &&& total_overflow ==> fails_with_overflow(r, "consumption_tax"@)
    &&& r is Ok <==> !missing && !zero_denom && !product_overflow && !total_overflow
    &&& r matches Ok(res) ==> {
        &&& res.tax_amount@ == tax
        &&& res.amount_with_tax@ == ctx.amount + tax
        &&& res.amount_without_tax@ == ctx.amount
        &&& res.applied_rate_numer == rate.numer
        &&& res.applied_rate_denom == rate.denom
        &&& res.is_reduced_rate == reduced
        &&& res.applied_flags@ == ctx.flags@
    }
}

/// What the consumption tax calculation gives for `ctx` and `params` under
/// the answers that `ctx.policy` gives: whether the reduced rate applies for
/// `ctx.flags`, and the rounding of the tax.
pub open spec fn consumption_tax_outcome_under_policy<P: ConsumptionTaxPolicy>(
    r: Result<ConsumptionTaxResult, JLawError>,
    ctx: ConsumptionTaxContext<P>,
    params: ConsumptionTaxParams,
) -> bool {
    exists|reduced: bool, rounding: RoundingStrategy|
        {
            &&& call_ensures(P::should_apply_reduced_rate, (&ctx.policy, &ctx.flags), reduced)
            &&& call_ensures(P::tax_rounding, (&ctx.policy,), rounding)
            &&& consumption_tax_outcome(r, ctx, params, reduced, rounding)
        }
}

/// Calculates the consumption tax under Article 29 of the Consumption Tax
/// Act.
///
/// 1. The policy decides whether the reduced rate applies; asked for on a
///    date without a reduced rate, the result is
///    [`CalculationError::PolicyNotApplicable`].
/// 2. The tax is the taxable amount times the rate, rounded by the policy
///    (zero when the rate is zero, before the tax existed).
/// 3. The amount with tax is the taxable amount plus the tax.
pub fn calculate_consumption_tax<P: ConsumptionTaxPolicy>(
    ctx: &ConsumptionTaxContext<P>,
    params: &ConsumptionTaxParams,
) -> (r: Result<ConsumptionTaxResult, JLawError>)
    ensures
        consumption_tax_outcome_under_policy(r, *ctx, *params),
{
    let rounding = ctx.policy.tax_rounding();
    let reduced = ctx.policy.should_apply_reduced_rate(&ctx.flags);
    let r = calculate_consumption_tax_with(ctx, params, reduced, rounding);
    proof {
        assert(consumption_tax_outcome(r, *ctx, *params, reduced, rounding));
    }
    r
}

/// The consumption tax for `ctx` and `params`, with the policy's answers
/// given: whether the reduced rate applies, and the rounding of the tax.
pub fn calculate_consumption_tax_with<P: ConsumptionTaxPolicy>(
    ctx: &ConsumptionTaxContext<P>,
    params: &ConsumptionTaxParams,
    use_reduced: bool,
    rounding: RoundingStrategy,
) -> (r: Result<ConsumptionTaxResult, JLawError>)
    ensures
        consumption_tax_outcome(r, *ctx, *params, use_reduced, rounding),
{
    let amount = ctx.amount;

    let (applied_rate, is_reduced) = if use_reduced {
        match params.reduced_rate {
            Some(reduced) => (reduced, true),
            None => {
                let reason = join3(
                    "軽減税率フラグが指定されましたが、対象日(",
                    ctx.target_date.to_date_str().as_str(),
                    ")の消費税パラメータに軽減税率が存在しません",
                );
                return Err(
                    JLawError::Calculation(CalculationError::PolicyNotApplicable { reason }),
                );
            },
        }
    } else {
        (params.standard_rate, false)
    };

    let tax_amount = if applied_rate.numer == 0 {
        FinalAmount::new(0)
    } else {
        let rate = Rate { numer: applied_rate.numer, denom: applied_rate.denom };
        let applied = rate.apply(
            &IntermediateAmount::from_exact(amount),
            MultiplyOrder::MultiplyFirst,
            rounding,
        )?;
        proof {
            lemma_zero_rounds_to_zero(rounding, 1);
        }
        applied.finalize(rounding)?
    };

    let amount_with_tax = match amount.checked_add(tax_amount.as_yen()) {
        Some(total) => FinalAmount::new(total),
        None => return Err(overflow("consumption_tax")),
    };

    Ok(
        ConsumptionTaxResult {
            tax_amount,
            amount_with_tax,
            amount_without_tax: FinalAmount::new(amount),
            applied_rate_numer: applied_rate.numer,
            applied_rate_denom: applied_rate.denom,
            is_reduced_rate: is_reduced,
            applied_flags: ctx.flags.duplicate(),
        },
    )
}

} // verus!
