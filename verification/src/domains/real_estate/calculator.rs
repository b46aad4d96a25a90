use vstd::prelude::*;

use crate::domains::real_estate::context::{RealEstateContext, RealEstateFlag};
use crate::domains::real_estate::params::{BrokerageFeeParams, TierParam};
use crate::domains::real_estate::policy::RealEstatePolicy;
use crate::error::{
    fails_not_applicable, fails_with_overflow, fails_zero_denominator, overflow, CalculationError,
    JLawError,
};
use crate::flags::FlagSet;
use crate::types::amount::{FinalAmount, IntermediateAmount};
use crate::types::rate::{rate_apply_step, MultiplyOrder, Rate};
use crate::types::rounding::{
    lemma_rounding_monotone, lemma_zero_rounds_to_zero, rounded_ratio, RoundingStrategy,
};

verus! {

/// One tier of the fee breakdown.
#[derive(Debug, Clone)]
pub struct CalculationStep {
    pub label: String,
    pub base_amount: u64,
    pub rate_numer: u64,
    pub rate_denom: u64,
    pub result: FinalAmount,
}

/// The result of the brokerage fee calculation.
#[derive(Debug, Clone)]
pub struct CalculationResult {
    /// The total including tax.
    pub total_with_tax: FinalAmount,
    /// The total excluding tax.
    pub total_without_tax: FinalAmount,
    /// The consumption tax on the fee.
    pub tax_amount: FinalAmount,
    /// The breakdown by tier.
    pub breakdown: Vec<CalculationStep>,
    /// The flags given.
    pub applied_flags: FlagSet<RealEstateFlag>,
    /// Whether the special rule for low-cost vacant houses was applied.
    pub low_cost_special_applied: bool,
}

/// The part of `price` that falls in the tier from `from` up to `to`
/// (inclusive; `None` for no upper bound).
pub open spec fn tier_base(price: nat, from: nat, to: Option<u64>) -> nat {
    if price < from {
        0
    } else {
        let capped = match to {
            Some(ceiling) => if price <= ceiling {
                price
            } else {
                ceiling as nat
            },
            None => price,
        };
        if from == 0 {
            capped
        } else {
            (capped - (from - 1)) as nat
        }
    }
}

/// The tier range does not end below its start where the price reaches it,
/// so that the part of the price in the tier is well defined.
pub open spec fn tier_range_ok(price: nat, from: nat, to: Option<u64>) -> bool {
    price >= from && from > 0 && to is Some ==> to.unwrap() + 1 >= from
}

/// The running total of the tier fees, or the first failure met.
pub enum TierTotal {
    Sum(nat),
    ZeroDenominator,
    ProductOverflow(nat, nat),
    SumOverflow(Seq<char>),
}

/// The fee of one tier whose base is `base`.
pub open spec fn tier_fee(base: nat, t: TierParam, rounding: RoundingStrategy) -> nat {
    rounded_ratio(rounding, base * (t.rate_numer as nat), t.rate_denom as nat)
}

/// The sum of the tier fees of `tiers` for `price`, in order, with the first
/// failure (zero denominator, overflow of a product or of the sum).
pub open spec fn tiers_total(price: nat, tiers: Seq<TierParam>, rounding: RoundingStrategy) -> TierTotal
    decreases tiers.len(),
{
    if tiers.len() == 0 {
        TierTotal::Sum(0)
    } else {
        match tiers_total(price, tiers.drop_last(), rounding) {
            TierTotal::Sum(s) => {
                let t = tiers.last();
                let base = tier_base(price, t.price_from as nat, t.price_to_inclusive);
                if base == 0 {
                    TierTotal::Sum(s)
                } else if t.rate_denom == 0 {
                    TierTotal::ZeroDenominator
                } else if base * t.rate_numer > u64::MAX {
                    TierTotal::ProductOverflow(base, t.rate_numer as nat)
                } else if s + tier_fee(base, t, rounding) > u64::MAX {
                    TierTotal::SumOverflow(t.label@)
                } else {
                    TierTotal::Sum(s + tier_fee(base, t, rounding))
                }
            },
            other => other,
        }
    }
}

/// Once a prefix of the tiers fails, the whole sequence fails the same way.
proof fn lemma_tier_failure_persists(price: nat, tiers: Seq<TierParam>, rounding: RoundingStrategy, i: int)
    requires
        0 <= i <= tiers.len(),
        !(tiers_total(price, tiers.subrange(0, i), rounding) is Sum),
    ensures
        tiers_total(price, tiers, rounding) == tiers_total(price, tiers.subrange(0, i), rounding),
    decreases tiers.len(),
{
    if i == tiers.len() {
        assert(tiers.subrange(0, i) =~= tiers);
    } else {
        assert(tiers.drop_last().subrange(0, i) =~= tiers.subrange(0, i));
        lemma_tier_failure_persists(price, tiers.drop_last(), rounding, i);
    }
}

/// The breakdown lines of `tiers` for `price`: label, base, rate and fee of
/// each tier with a nonzero base, in order.
pub open spec fn tier_steps(price: nat, tiers: Seq<TierParam>, rounding: RoundingStrategy) -> Seq<
    (Seq<char>, nat, nat, nat, nat),
>
    decreases tiers.len(),
{
    if tiers.len() == 0 {
        Seq::empty()
    } else {
        let t = tiers.last();
        let base = tier_base(price, t.price_from as nat, t.price_to_inclusive);
        let earlier = tier_steps(price, tiers.drop_last(), rounding);
        if base == 0 {
            earlier
        } else {
            earlier.push(
                (t.label@, base, t.rate_numer as nat, t.rate_denom as nat, tier_fee(base, t, rounding)),
            )
        }
    }
}

/// The view of one breakdown line.
pub open spec fn step_view(s: CalculationStep) -> (Seq<char>, nat, nat, nat, nat) {
    (s.label@, s.base_amount as nat, s.rate_numer as nat, s.rate_denom as nat, s.result@ as nat)
}

/// The reason given when the low-cost special rule is claimed but the
/// parameters have none.
pub open spec fn missing_low_cost_reason() -> Seq<char> {
    "IsLowCostVacantHouseフラグが指定されましたが、このパラメータセットに低廉特例データが含まれていません"@
}

/// The part of `price` that falls in the tier from `from` up to
/// `to_inclusive` (`None` for no upper bound).
pub fn compute_tier_base(price: u64, from: u64, to_inclusive: Option<u64>) -> (r: u64)
    requires
        tier_range_ok(price as nat, from as nat, to_inclusive),
    ensures
        r == tier_base(price as nat, from as nat, to_inclusive),
        r <= price,
        from > 0 && price >= from ==> r + from <= price + 1,
{
    if price < from {
        return 0;
    }
    let capped = match to_inclusive {
        Some(ceiling) => if price <= ceiling {
            price
        } else {
            ceiling
        },
        None => price,
    };
    if from == 0 {
        capped
    } else {
        capped - (from - 1)
    }
}

/// What the brokerage fee calculation gives for `ctx` and `params` when the
/// policy decides `claimed` on the low-cost special rule, rounds each tier
/// by `tier_rounding` and the tax by `tax_rounding`.
pub open spec fn brokerage_fee_outcome<P: RealEstatePolicy>(
    r: Result<CalculationResult, JLawError>,
    ctx: RealEstateContext<P>,
    params: BrokerageFeeParams,
    claimed: bool,
    tier_rounding: RoundingStrategy,
    tax_rounding: RoundingStrategy,
) -> bool {
    let tiers = tiers_total(ctx.price as nat, params.tiers@, tier_rounding);
    let special = params.low_cost_special;
    let applied = claimed && special is Some && ctx.price
        <= special.unwrap().price_ceiling_inclusive && (!special.unwrap().seller_only
        || ctx.flags@.contains(RealEstateFlag::IsSeller));
    match tiers {
        TierTotal::ZeroDenominator => fails_zero_denominator(r),
        TierTotal::ProductOverflow(base, numer) => fails_with_overflow(
            r,
            rate_apply_step(base, numer),
        ),
        TierTotal::SumOverflow(label) => fails_with_overflow(r, label),
        TierTotal::Sum(sum) => {
            let subtotal = if applied && sum < special.unwrap().fee_ceiling_exclusive_tax {
                special.unwrap().fee_ceiling_exclusive_tax as nat
            } else {
                sum
            };
            let tax = rounded_ratio(
                tax_rounding,
                subtotal * (params.tax_numer as nat),
                params.tax_denom as nat,
            );
            if claimed && special is None {
                fails_not_applicable(r, missing_low_cost_reason())
            } else if params.tax_denom == 0 {
                fails_zero_denominator(r)
            } else if subtotal * params.tax_numer > u64::MAX {
                fails_with_overflow(r, rate_apply_step(subtotal, params.tax_numer as nat))
            } else if subtotal + tax > u64::MAX {
                fails_with_overflow(r, "tax"@)
            } else {
                r matches Ok(res) && {
                    &&& res.total_without_tax@ == subtotal
                    &&& res.tax_amount@ == tax
                    &&& res.total_with_tax@ == subtotal + tax
                    &&& res.breakdown@.map_values(|s: CalculationStep| step_view(s))
                        == tier_steps(ctx.price as nat, params.tiers@, tier_rounding)
                    &&& res.applied_flags@ == ctx.flags@
                    &&& res.low_cost_special_applied == applied
                }
            }
        },
    }
}

/// What the brokerage fee calculation gives for `ctx` and `params` under
/// the answers that `ctx.policy` gives: whether `ctx.flags` claim the
/// low-cost special rule, and the roundings of the tier fees and of the tax.
pub open spec fn brokerage_fee_outcome_under_policy<P: RealEstatePolicy>(
    r: Result<CalculationResult, JLawError>,
    ctx: RealEstateContext<P>,
    params: BrokerageFeeParams,
) -> bool {
    exists|claimed: bool, tier_rounding: RoundingStrategy, tax_rounding: RoundingStrategy|
        {
            &&& call_ensures(P::should_apply_low_cost_special, (&ctx.policy, &ctx.flags), claimed)
            &&& call_ensures(P::tier_rounding, (&ctx.policy,), tier_rounding)
            &&& call_ensures(P::tax_rounding, (&ctx.policy,), tax_rounding)
            &&& brokerage_fee_outcome(r, ctx, params, claimed, tier_rounding, tax_rounding)
        }
}

/// Every tier's range is well formed for the price.
pub open spec fn tier_ranges_ok(price: nat, tiers: Seq<TierParam>) -> bool {
    forall|i: int|
        0 <= i < tiers.len() ==> tier_range_ok(
            price,
            #[trigger] tiers[i].price_from as nat,
            tiers[i].price_to_inclusive,
        )
}

/// The part of the price that falls in a tier does not fall when the price
/// rises.
proof fn lemma_tier_base_monotone(p1: nat, p2: nat, from: nat, to: Option<u64>)
    requires
        p1 <= p2,
        tier_range_ok(p1, from, to),
        tier_range_ok(p2, from, to),
    ensures
        tier_base(p1, from, to) <= tier_base(p2, from, to),
{
}

/// The sum of the tier fees does not fall when the price rises.
proof fn lemma_tiers_total_monotone(
    p1: nat,
    p2: nat,
    tiers: Seq<TierParam>,
    rounding: RoundingStrategy,
)
    requires
        p1 <= p2,
        tier_ranges_ok(p1, tiers),
        tier_ranges_ok(p2, tiers),
        tiers_total(p1, tiers, rounding) is Sum,
        tiers_total(p2, tiers, rounding) is Sum,
    ensures
        tiers_total(p1, tiers, rounding)->Sum_0 <= tiers_total(p2, tiers, rounding)->Sum_0,
    decreases tiers.len(),
{
    if tiers.len() > 0 {
        let rest = tiers.drop_last();
        assert forall|i: int| 0 <= i < rest.len() implies tier_range_ok(
            p1,
            #[trigger] rest[i].price_from as nat,
            rest[i].price_to_inclusive,
        ) && tier_range_ok(p2, rest[i].price_from as nat, rest[i].price_to_inclusive) by {
            assert(rest[i] == tiers[i]);
        }
        lemma_tiers_total_monotone(p1, p2, rest, rounding);
        let t = tiers.last();
        assert(t == tiers[tiers.len() - 1]);
        let b1 = tier_base(p1, t.price_from as nat, t.price_to_inclusive);
        let b2 = tier_base(p2, t.price_from as nat, t.price_to_inclusive);
        lemma_tier_base_monotone(p1, p2, t.price_from as nat, t.price_to_inclusive);
        if b1 != 0 {
            assert(b1 * t.rate_numer <= b2 * t.rate_numer) by (nonlinear_arith)
                requires
                    b1 <= b2,
            ;
            lemma_rounding_monotone(
                rounding,
                b1 * (t.rate_numer as nat),
                b2 * (t.rate_numer as nat),
                t.rate_denom as nat,
            );
        }
    }
}

/// Without the low-cost special rule, the brokerage fee (without tax, the
/// tax, and with tax) does not fall when the price rises: between two
/// calculations on the same parameters and roundings whose results are both
/// `Ok`, the one at the higher price is at least as large.
pub proof fn lemma_brokerage_fee_monotone_in_price<P: RealEstatePolicy>(
    r1: Result<CalculationResult, JLawError>,
    r2: Result<CalculationResult, JLawError>,
    ctx1: RealEstateContext<P>,
    ctx2: RealEstateContext<P>,
    params: BrokerageFeeParams,
    tier_rounding: RoundingStrategy,
    tax_rounding: RoundingStrategy,
)
    requires
        ctx1.price <= ctx2.price,
        tier_ranges_ok(ctx1.price as nat, params.tiers@),
        tier_ranges_ok(ctx2.price as nat, params.tiers@),
        brokerage_fee_outcome(r1, ctx1, params, false, tier_rounding, tax_rounding),
        brokerage_fee_outcome(r2, ctx2, params, false, tier_rounding, tax_rounding),
        r1 is Ok,
        r2 is Ok,
    ensures
        r1->Ok_0.total_without_tax@ <= r2->Ok_0.total_without_tax@,
        r1->Ok_0.tax_amount@ <= r2->Ok_0.tax_amount@,
        r1->Ok_0.total_with_tax@ <= r2->Ok_0.total_with_tax@,
{
    let p1 = ctx1.price as nat;
    let p2 = ctx2.price as nat;
    lemma_tiers_total_monotone(p1, p2, params.tiers@, tier_rounding);
    let s1 = tiers_total(p1, params.tiers@, tier_rounding)->Sum_0;
    let s2 = tiers_total(p2, params.tiers@, tier_rounding)->Sum_0;
    assert(s1 * params.tax_numer <= s2 * params.tax_numer) by (nonlinear_arith)
        requires
            s1 <= s2,
    ;
    lemma_rounding_monotone(
        tax_rounding,
        s1 * (params.tax_numer as nat),
        s2 * (params.tax_numer as nat),
        params.tax_denom as nat,
    );
}

/// The tiers follow one another from zero without gap or overlap: the first
/// starts at 0, each but the last has an upper bound and the next starts
/// just above it, and no tier ends below its start.
pub open spec fn tiers_chained(tiers: Seq<TierParam>) -> bool {
    &&& tiers.len() > 0
    &&& tiers[0].price_from == 0
    &&& forall|i: int|
        #![trigger tiers[i]]
        0 <= i < tiers.len() - 1 ==> tiers[i].price_to_inclusive is Some && tiers[i
            + 1].price_from == tiers[i].price_to_inclusive.unwrap() + 1
    &&& forall|i: int|
        0 <= i < tiers.len() && #[trigger] tiers[i].price_to_inclusive is Some
            ==> tiers[i].price_to_inclusive.unwrap() + 1 >= tiers[i].price_from
}

/// The tiers cover every price: they are chained from zero and the last has
/// no upper bound.
pub open spec fn tiers_cover_all_prices(tiers: Seq<TierParam>) -> bool {
    tiers_chained(tiers) && tiers.last().price_to_inclusive is None
}

/// `price`, held down to the bound `to` where there is one.
pub open spec fn price_up_to(price: nat, to: Option<u64>) -> nat {
    match to {
        Some(c) => if price <= c {
            price
        } else {
            c as nat
        },
        None => price,
    }
}

/// The sum of the parts of `price` in each of the tiers.
pub open spec fn tier_bases_total(price: nat, tiers: Seq<TierParam>) -> nat
    decreases tiers.len(),
{
    if tiers.len() == 0 {
        0
    } else {
        tier_bases_total(price, tiers.drop_last()) + tier_base(
            price,
            tiers.last().price_from as nat,
            tiers.last().price_to_inclusive,
        )
    }
}

/// The sum of the bases of the lines of a breakdown.
pub open spec fn breakdown_bases_total(steps: Seq<CalculationStep>) -> nat
    decreases steps.len(),
{
    if steps.len() == 0 {
        0
    } else {
        breakdown_bases_total(steps.drop_last()) + steps.last().base_amount as nat
    }
}

/// The sum of the bases of breakdown lines given by their views.
pub open spec fn step_views_bases_total(steps: Seq<(Seq<char>, nat, nat, nat, nat)>) -> nat
    decreases steps.len(),
{
    if steps.len() == 0 {
        0
    } else {
        step_views_bases_total(steps.drop_last()) + steps.last().1
    }
}

/// Over chained tiers, the parts of the price in the tiers add up to the
/// price held down to the last tier's bound.
proof fn lemma_chained_tier_bases_total(price: nat, tiers: Seq<TierParam>)
    requires
        tiers_chained(tiers),
    ensures
        tier_bases_total(price, tiers) == price_up_to(price, tiers.last().price_to_inclusive),
    decreases tiers.len(),
{
    let n = tiers.len();
    let t = tiers.last();
    assert(t == tiers[n - 1]);
    if n == 1 {
        assert(tiers.drop_last().len() == 0);
        assert(tier_bases_total(price, tiers.drop_last()) == 0);
        assert(t.price_from == 0);
    } else {
        let rest = tiers.drop_last();
        assert forall|i: int|
            #![trigger rest[i]]
            0 <= i < rest.len() - 1 implies rest[i].price_to_inclusive is Some && rest[i
                + 1].price_from == rest[i].price_to_inclusive.unwrap() + 1 by {
            assert(rest[i] == tiers[i] && rest[i + 1] == tiers[i + 1]);
        }
        assert forall|i: int|
            0 <= i < rest.len() && #[trigger] rest[i].price_to_inclusive is Some
                implies rest[i].price_to_inclusive.unwrap() + 1 >= rest[i].price_from by {
            assert(rest[i] == tiers[i]);
        }
        assert(rest[0] == tiers[0]);
        lemma_chained_tier_bases_total(price, rest);
        let prev = tiers[n - 2];
        assert(rest.last() == prev);
        assert(prev.price_to_inclusive is Some && t.price_from == prev.price_to_inclusive.unwrap()
            + 1);
        assert(prev.price_to_inclusive.unwrap() + 1 >= prev.price_from);
        if t.price_to_inclusive is Some {
            assert(t.price_to_inclusive.unwrap() + 1 >= t.price_from);
        }
        assert(tier_bases_total(price, tiers) == tier_bases_total(price, rest) + tier_base(
            price,
            t.price_from as nat,
            t.price_to_inclusive,
        ));
        assert(tier_bases_total(price, rest) == price_up_to(price, prev.price_to_inclusive));
    }
}

/// The bases of the breakdown lines of `tiers` add up to the parts of the
/// price in all the tiers: the tiers left out have no part of it.
proof fn lemma_tier_steps_bases_total(price: nat, tiers: Seq<TierParam>, rounding: RoundingStrategy)
    ensures
        step_views_bases_total(tier_steps(price, tiers, rounding)) == tier_bases_total(price, tiers),
    decreases tiers.len(),
{
    if tiers.len() > 0 {
        lemma_tier_steps_bases_total(price, tiers.drop_last(), rounding);
        let t = tiers.last();
        let earlier = tier_steps(price, tiers.drop_last(), rounding);
        let base = tier_base(price, t.price_from as nat, t.price_to_inclusive);
        if base != 0 {
            let line = (
                t.label@,
                base,
                t.rate_numer as nat,
                t.rate_denom as nat,
                tier_fee(base, t, rounding),
            );
            assert(earlier.push(line).drop_last() =~= earlier);
        }
    }
}

/// The bases of a breakdown and of its views add up alike.
proof fn lemma_breakdown_bases_total_of_views(steps: Seq<CalculationStep>)
    ensures
        step_views_bases_total(steps.map_values(|s: CalculationStep| step_view(s)))
            == breakdown_bases_total(steps),
    decreases steps.len(),
{
    if steps.len() > 0 {
        lemma_breakdown_bases_total_of_views(steps.drop_last());
        assert(steps.map_values(|s: CalculationStep| step_view(s)).drop_last()
            =~= steps.drop_last().map_values(|s: CalculationStep| step_view(s)));
    }
}

/// Over a schedule whose tiers cover every price from zero without gap or
/// overlap, the bases of the breakdown lines split the price: they add up
/// to the price exactly, so no tier charges for more of the price than
/// falls in it.
pub proof fn lemma_breakdown_bases_split_price<P: RealEstatePolicy>(
    r: Result<CalculationResult, JLawError>,
    ctx: RealEstateContext<P>,
    params: BrokerageFeeParams,
)
    requires
        tiers_cover_all_prices(params.tiers@),
        brokerage_fee_outcome_under_policy(r, ctx, params),
        r is Ok,
    ensures
        breakdown_bases_total(r->Ok_0.breakdown@) == ctx.price,
{
    let (claimed, tier_rounding, tax_rounding) = choose|
        claimed: bool,
        tier_rounding: RoundingStrategy,
        tax_rounding: RoundingStrategy,
    |
        {
            &&& call_ensures(P::should_apply_low_cost_special, (&ctx.policy, &ctx.flags), claimed)
            &&& call_ensures(P::tier_rounding, (&ctx.policy,), tier_rounding)
            &&& call_ensures(P::tax_rounding, (&ctx.policy,), tax_rounding)
            &&& brokerage_fee_outcome(r, ctx, params, claimed, tier_rounding, tax_rounding)
        };
    let price = ctx.price as nat;
    let steps = r->Ok_0.breakdown@;
    assert(tiers_total(price, params.tiers@, tier_rounding) is Sum);
    assert(steps.map_values(|s: CalculationStep| step_view(s)) == tier_steps(
        price,
        params.tiers@,
        tier_rounding,
    ));
    lemma_breakdown_bases_total_of_views(steps);
    lemma_tier_steps_bases_total(price, params.tiers@, tier_rounding);
    lemma_chained_tier_bases_total(price, params.tiers@);
}

/// Whether every tier's range is well formed for the price, so that the
/// fee can be calculated.
pub fn check_tier_ranges(price: u64, tiers: &Vec<TierParam>) -> (b: bool)
    ensures
        b == tier_ranges_ok(price as nat, tiers@),
{
    let mut i: usize = 0;
    while i < tiers.len()
        invariant
            0 <= i <= tiers@.len(),
            forall|k: int|
                0 <= k < i ==> tier_range_ok(
                    price as nat,
                    #[trigger] tiers@[k].price_from as nat,
                    tiers@[k].price_to_inclusive,
                ),
        decreases tiers@.len() - i,
    {
        let t = &tiers[i];
        let ok = if price >= t.price_from && t.price_from > 0 {
            match t.price_to_inclusive {
                Some(to) => to >= t.price_from - 1,
                None => true,
            }
        } else {
            true
        };
        if !ok {
            return false;
        }
        i = i + 1;
    }
    true
}

/// Calculates the brokerage fee under Article 46 of the Building Lots and
/// Buildings Transaction Business Act.
///
/// 1. The part of the price in each tier is multiplied by the tier rate and
///    rounded on its own.
/// 2. The tier fees are summed into the fee excluding tax.
/// 3. When the low-cost special rule is claimed and applies (price at most
///    the ceiling; seller side where the rule is for sellers only), a lower
///    fee is raised to the guaranteed amount (a minimum, not a cap).
/// 4. Consumption tax is added, rounded by the policy.
pub fn calculate_brokerage_fee<P: RealEstatePolicy>(
    ctx: &RealEstateContext<P>,
    params: &BrokerageFeeParams,
) -> (r: Result<CalculationResult, JLawError>)
    requires
        tier_ranges_ok(ctx.price as nat, params.tiers@),
    ensures
        brokerage_fee_outcome_under_policy(r, *ctx, *params),
{
    let tier_rounding = ctx.policy.tier_rounding();
    let tax_rounding = ctx.policy.tax_rounding();
    let claimed = ctx.policy.should_apply_low_cost_special(&ctx.flags);
    let r = calculate_brokerage_fee_with(ctx, params, claimed, tier_rounding, tax_rounding);
    proof {
        assert(brokerage_fee_outcome(r, *ctx, *params, claimed, tier_rounding, tax_rounding));
    }
    r
}

/// The brokerage fee for `ctx` and `params`, with the policy's answers
/// given: whether the low-cost special rule is claimed, and the roundings
/// of the tier fees and of the tax.
pub fn calculate_brokerage_fee_with<P: RealEstatePolicy>(
    ctx: &RealEstateContext<P>,
    params: &BrokerageFeeParams,
    claimed: bool,
    tier_rounding: RoundingStrategy,
    tax_rounding: RoundingStrategy,
) -> (r: Result<CalculationResult, JLawError>)
    requires
        tier_ranges_ok(ctx.price as nat, params.tiers@),
    ensures
        brokerage_fee_outcome(r, *ctx, *params, claimed, tier_rounding, tax_rounding),
{
    let price = ctx.price;

    let mut breakdown: Vec<CalculationStep> = Vec::new();
    let mut subtotal: u64 = 0;
    let mut i: usize = 0;
    while i < params.tiers.len()
        invariant
            0 <= i <= params.tiers@.len(),
            forall|k: int|
                0 <= k < params.tiers@.len() ==> tier_range_ok(
                    price as nat,
                    #[trigger] params.tiers@[k].price_from as nat,
                    params.tiers@[k].price_to_inclusive,
                ),
            price == ctx.price,
            tiers_total(price as nat, params.tiers@.subrange(0, i as int), tier_rounding)
                == TierTotal::Sum(subtotal as nat),
            breakdown@.map_values(|s: CalculationStep| step_view(s)) == tier_steps(
                price as nat,
                params.tiers@.subrange(0, i as int),
                tier_rounding,
            ),
        decreases params.tiers@.len() - i,
    {
        let tier = &params.tiers[i];
        let ghost prefix = params.tiers@.subrange(0, i as int);
        let ghost next = params.tiers@.subrange(0, i + 1);
        proof {
            assert(next.drop_last() =~= prefix);
            assert(next.last() == params.tiers@[i as int]);
        }
        let tier_base = compute_tier_base(price, tier.price_from, tier.price_to_inclusive);
        if tier_base == 0 {
            i = i + 1;
            continue;
        }
        let rate = Rate { numer: tier.rate_numer, denom: tier.rate_denom };
        let amount = IntermediateAmount::from_exact(tier_base);
        let tier_result = match rate.apply(&amount, MultiplyOrder::MultiplyFirst, tier_rounding) {
            Ok(a) => a,
            Err(e) => {
                proof {
                    lemma_tier_failure_persists(price as nat, params.tiers@, tier_rounding, i + 1);
                }
                return Err(e);
            },
        };
        proof {
            lemma_zero_rounds_to_zero(tier_rounding, 1);
        }
        let tier_final = tier_result.finalize(tier_rounding)?;
        subtotal = match subtotal.checked_add(tier_final.as_yen()) {
            Some(s) => s,
            None => {
                proof {
                    lemma_tier_failure_persists(price as nat, params.tiers@, tier_rounding, i + 1);
                }
                return Err(
                    JLawError::Calculation(CalculationError::Overflow { step: tier.label.clone() }),
                );
            },
        };
        let ghost before = breakdown@;
        breakdown.push(
            CalculationStep {
                label: tier.label.clone(),
                base_amount: tier_base,
                rate_numer: tier.rate_numer,
                rate_denom: tier.rate_denom,
                result: tier_final,
            },
        );
        proof {
            assert(breakdown@.map_values(|s: CalculationStep| step_view(s)) =~= before.map_values(
                |s: CalculationStep| step_view(s),
            ).push(step_view(breakdown@[before.len() as int])));
        }
        i = i + 1;
    }
    proof {
        assert(params.tiers@.subrange(0, params.tiers@.len() as int) =~= params.tiers@);
    }

    let mut low_cost_applied = false;
    if claimed {
        match &params.low_cost_special {
            Some(special) => {
                let seller_side_ok = !special.seller_only || ctx.flags.contains(
                    &RealEstateFlag::IsSeller,
                );
                if price <= special.price_ceiling_inclusive && seller_side_ok {
                    low_cost_applied = true;
                    if subtotal < special.fee_ceiling_exclusive_tax {
                        subtotal = special.fee_ceiling_exclusive_tax;
                    }
                }
            },
            None => {
                return Err(
                    JLawError::Calculation(
                        CalculationError::PolicyNotApplicable {
                            reason: String::from_str(
                                "IsLowCostVacantHouseフラグが指定されましたが、このパラメータセットに低廉特例データが含まれていません",
                            ),
                        },
                    ),
                );
            },
        }
    }

    let total_without_tax = FinalAmount::new(subtotal);

    let tax_rate = Rate { numer: params.tax_numer, denom: params.tax_denom };
    let tax_applied = tax_rate.apply(
        &IntermediateAmount::from_exact(subtotal),
        MultiplyOrder::MultiplyFirst,
        tax_rounding,
    )?;
    proof {
        lemma_zero_rounds_to_zero(tax_rounding, 1);
    }
    let tax_amount = tax_applied.finalize(tax_rounding)?;

    let total_with_tax = match subtotal.checked_add(tax_amount.as_yen()) {
        Some(t) => FinalAmount::new(t),
        None => return Err(overflow("tax")),
    };

    Ok(
        CalculationResult {
            total_with_tax,
            total_without_tax,
            tax_amount,
            breakdown,
            applied_flags: ctx.flags.duplicate(),
            low_cost_special_applied: low_cost_applied,
        },
    )
}

} // verus!
