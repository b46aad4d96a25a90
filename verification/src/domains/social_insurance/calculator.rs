use vstd::prelude::*;

use crate::domains::social_insurance::context::{
    prefecture_code, SocialInsuranceContext, SocialInsuranceFlag,
};
use crate::domains::social_insurance::params::{
    PrefectureHealthInsuranceRate, SocialInsuranceParams, SocialInsuranceRate,
};
use crate::domains::social_insurance::policy::{EmployeeShareRoundingMode, SocialInsurancePolicy};
use crate::error::{fails_as, overflow, Failure, JLawError, not_applicable};
use crate::flags::FlagSet;
use crate::search::{first_index, lemma_first_index};
use crate::text::{decimal, with_decimal};
use crate::types::amount::{FinalAmount, IntermediateAmount};

verus! {

/// One line of the premium breakdown.
///
/// Legal basis: Health Insurance Act, Article 160; Long-Term Care Insurance
/// Act, Article 129; Employees' Pension Insurance Act, Article 81.
#[derive(Debug, Clone)]
pub struct SocialInsuranceBreakdownStep {
    /// Name of the line.
    pub label: String,
    /// The standard monthly remuneration used.
    pub standard_monthly_remuneration: FinalAmount,
    /// Numerator of the rate applied.
    pub rate_numer: u64,
    /// Denominator of the rate applied.
    pub rate_denom: u64,
    /// The employee's share before rounding.
    pub raw_employee_share: IntermediateAmount,
    /// The employee's share after rounding.
    pub amount: FinalAmount,
}

/// The result of the monthly social insurance premium calculation.
#[derive(Debug, Clone)]
pub struct SocialInsuranceResult {
    /// The employee's share of health insurance (with long-term care where
    /// it applies).
    pub health_related_amount: FinalAmount,
    /// The employee's share of employees' pension insurance.
    pub pension_amount: FinalAmount,
    /// The employee's total share.
    pub total_amount: FinalAmount,
    /// The standard monthly remuneration for health insurance.
    pub health_standard_monthly_remuneration: FinalAmount,
    /// The standard monthly remuneration for the pension.
    pub pension_standard_monthly_remuneration: FinalAmount,
    /// Whether the long-term care premium was added.
    pub care_insurance_applied: bool,
    /// The flags given.
    pub applied_flags: FlagSet<SocialInsuranceFlag>,
    /// The breakdown.
    pub breakdown: Vec<SocialInsuranceBreakdownStep>,
}

/// Whether the fraction `rem / d` of a yen is raised to a whole yen under
/// `mode`: above one half always, exactly one half under cash payment only.
pub open spec fn rounds_up(rem: nat, d: nat, mode: EmployeeShareRoundingMode) -> bool {
    rem != 0 && (2 * rem > d || (2 * rem == d && mode == EmployeeShareRoundingMode::CashPayment))
}

/// Half of `remuneration × rate`, rounded to yen by `mode`: the fraction of
/// exactly one half is dropped under payroll deduction and raised under cash
/// payment; other fractions go to the nearer yen.
pub open spec fn employee_share(
    remuneration: nat,
    rate: SocialInsuranceRate,
    mode: EmployeeShareRoundingMode,
) -> nat {
    let n = remuneration * (rate.numer as nat);
    let d = 2 * (rate.denom as nat);
    if rounds_up(n % d, d, mode) {
        n / d + 1
    } else {
        n / d
    }
}

/// Paid in cash, the employee's share is the share deducted from pay or one
/// yen more, and one yen more only when the unrounded share ends in exactly
/// half a yen.
pub proof fn lemma_cash_share_at_most_one_yen_more(remuneration: nat, rate: SocialInsuranceRate)
    requires
        rate.denom > 0,
    ensures
        ({
            let payroll = employee_share(remuneration, rate, EmployeeShareRoundingMode::PayrollDeduction);
            let cash = employee_share(remuneration, rate, EmployeeShareRoundingMode::CashPayment);
            let n = remuneration * (rate.numer as nat);
            let d = 2 * (rate.denom as nat);
            &&& payroll <= cash <= payroll + 1
            &&& cash != payroll ==> 2 * (n % d) == d
        }),
{
}

/// The employee's share is a nearest whole yen to half of `remuneration ×
/// rate`: it differs from the unrounded share by at most half a yen.
pub proof fn lemma_employee_share_is_nearest_yen(
    remuneration: nat,
    rate: SocialInsuranceRate,
    mode: EmployeeShareRoundingMode,
)
    requires
        rate.denom > 0,
    ensures
        ({
            let n = remuneration * (rate.numer as nat);
            let d = 2 * (rate.denom as nat);
            let share = employee_share(remuneration, rate, mode);
            &&& 2 * d * share <= 2 * n + d
            &&& 2 * n <= 2 * d * share + d
        }),
{
    let n = remuneration * (rate.numer as nat);
    let d = 2 * (rate.denom as nat);
    let q = n / d;
    let rem = n % d;
    vstd::arithmetic::div_mod::lemma_fundamental_div_mod(n as int, d as int);
    assert(0 <= rem < d);
    if rounds_up(rem, d, mode) {
        assert(2 * d * (q + 1) <= 2 * n + d && 2 * n <= 2 * d * (q + 1) + d) by (nonlinear_arith)
            requires
                n == d * q + rem,
                2 * rem >= d,
                rem < d,
        ;
    } else {
        assert(2 * d * q <= 2 * n + d && 2 * n <= 2 * d * q + d) by (nonlinear_arith)
            requires
                n == d * q + rem,
                2 * rem <= d,
                rem >= 0,
        ;
    }
}

/// The failure of the employee's share of `remuneration × rate`, if any:
/// an overflow at `step`, or a zero denominator.
pub open spec fn employee_share_failure(
    remuneration: nat,
    rate: SocialInsuranceRate,
    mode: EmployeeShareRoundingMode,
    step: Seq<char>,
) -> Option<Failure> {
    let n = remuneration * (rate.numer as nat);
    let d = 2 * (rate.denom as nat);
    if n > u64::MAX || d > u64::MAX {
        Some(Failure::Overflow(step))
    } else if d == 0 {
        Some(Failure::ZeroDenominator)
    } else if n % d != 0 && 2 * (n % d) > u64::MAX {
        Some(Failure::Overflow(step))
    } else if rounds_up(n % d, d, mode) && n / d + 1 > u64::MAX {
        Some(Failure::Overflow(step))
    } else {
        None
    }
}

/// The unrounded share `n / d` held as an intermediate amount.
pub open spec fn raw_share_is(raw: IntermediateAmount, remuneration: nat, rate: SocialInsuranceRate) -> bool {
    let n = remuneration * (rate.numer as nat);
    let d = 2 * (rate.denom as nat);
    raw.whole_part() == n / d && raw.numer_part() == n % d && raw.denom_part() == d
}

/// The view of a breakdown line: label, remuneration, rate and share.
pub open spec fn si_step_is(
    s: SocialInsuranceBreakdownStep,
    label: Seq<char>,
    remuneration: nat,
    rate: SocialInsuranceRate,
    amount: nat,
) -> bool {
    &&& s.label@ == label
    &&& s.standard_monthly_remuneration@ == remuneration
    &&& s.rate_numer == rate.numer
    &&& s.rate_denom == rate.denom
    &&& raw_share_is(s.raw_employee_share, remuneration, rate)
    &&& s.amount@ == amount
}

/// What the premium calculation gives for `ctx` and `params` when the policy
/// decides `care` on the long-term care premium and rounds by `mode`.
pub open spec fn social_insurance_outcome<P: SocialInsurancePolicy>(
    r: Result<SocialInsuranceResult, JLawError>,
    ctx: SocialInsuranceContext<P>,
    params: SocialInsuranceParams,
    care: bool,
    mode: EmployeeShareRoundingMode,
) -> bool {
    let smr = ctx.standard_monthly_remuneration as nat;
    let rates = params.prefecture_health_rates@;
    let idx = first_index(
        rates,
        |e: PrefectureHealthInsuranceRate| e.prefecture == ctx.prefecture,
    );
    let health = rates[idx].rate;
    let health_rate = if care {
        SocialInsuranceRate {
            numer: (health.numer + params.care_rate.numer) as u64,
            denom: health.denom,
        }
    } else {
        health
    };
    let pension_smr = if smr <= params.pension_standard_monthly_remuneration_cap {
        smr
    } else {
        params.pension_standard_monthly_remuneration_cap as nat
    };
    let health_amount = employee_share(smr, health_rate, mode);
    let pension_amount = employee_share(pension_smr, params.pension_rate, mode);
    let health_failure = employee_share_failure(
        smr,
        health_rate,
        mode,
        "social_insurance_health_related"@,
    );
    let pension_failure = employee_share_failure(
        pension_smr,
        params.pension_rate,
        mode,
        "social_insurance_pension"@,
    );
    if !params.valid_standard_monthly_remunerations@.contains(ctx.standard_monthly_remuneration) {
        fails_as(
            r,
            Failure::NotApplicable(
                "標準報酬月額 "@ + decimal(smr)
                    + "円 は協会けんぽの標準報酬月額表に存在しません"@,
            ),
        )
    } else if idx == rates.len() {
        fails_as(
            r,
            Failure::NotApplicable(
                "都道府県コード "@ + decimal(prefecture_code(ctx.prefecture))
                    + " に対応する健康保険料率が見つかりません"@,
            ),
        )
    } else if care && health.numer + params.care_rate.numer > u64::MAX {
        fails_as(r, Failure::Overflow("social_insurance_health_related_rate"@))
    } else if health_failure is Some {
        fails_as(r, health_failure->0)
    } else if pension_failure is Some {
        fails_as(r, pension_failure->0)
    } else if health_amount + pension_amount > u64::MAX {
        fails_as(r, Failure::Overflow("social_insurance_total"@))
    } else {
        r matches Ok(res) && {
            &&& res.health_related_amount@ == health_amount
            &&& res.pension_amount@ == pension_amount
            &&& res.total_amount@ == health_amount + pension_amount
            &&& res.health_standard_monthly_remuneration@ == smr
            &&& res.pension_standard_monthly_remuneration@ == pension_smr
            &&& res.care_insurance_applied == care
            &&& res.applied_flags@ == ctx.flags@
            &&& res.breakdown@.len() == 2
            &&& si_step_is(
                res.breakdown@[0],
                if care {
                    "健康保険料・介護保険料"@
                } else {
                    "健康保険料"@
                },
                smr,
                health_rate,
                health_amount,
            )
            &&& si_step_is(res.breakdown@[1], "厚生年金保険料"@, pension_smr, params.pension_rate, pension_amount)
        }
    }
}

/// What the premium calculation gives for `ctx` and `params` under the
/// answers that `ctx.policy` gives: whether to add the care premium for
/// `ctx.flags`, and the rounding of the employee's share.
pub open spec fn social_insurance_outcome_under_policy<P: SocialInsurancePolicy>(
    r: Result<SocialInsuranceResult, JLawError>,
    ctx: SocialInsuranceContext<P>,
    params: SocialInsuranceParams,
) -> bool {
    exists|care: bool, mode: EmployeeShareRoundingMode|
        {
            &&& call_ensures(P::should_apply_care_insurance, (&ctx.policy, &ctx.flags), care)
            &&& call_ensures(P::employee_share_rounding_mode, (&ctx.policy,), mode)
            &&& social_insurance_outcome(r, ctx, params, care, mode)
        }
}

/// The health-related share is taken on the full standard monthly
/// remuneration, which the pension's upper limit does not touch: it is the
/// remuneration times the prefecture's health rate (plus the long-term care
/// rate where that premium is added), halved and rounded to a nearest yen,
/// and its breakdown line names the full remuneration.
pub proof fn lemma_health_share_on_full_remuneration<P: SocialInsurancePolicy>(
    r: Result<SocialInsuranceResult, JLawError>,
    ctx: SocialInsuranceContext<P>,
    params: SocialInsuranceParams,
    care: bool,
    mode: EmployeeShareRoundingMode,
    i: int,
)
    requires
        social_insurance_outcome(r, ctx, params, care, mode),
        r is Ok,
        0 <= i < params.prefecture_health_rates@.len(),
        params.prefecture_health_rates@[i].prefecture == ctx.prefecture,
        forall|k: int|
            0 <= k < i ==> #[trigger] params.prefecture_health_rates@[k].prefecture != ctx.prefecture,
    ensures
        ({
            let health = params.prefecture_health_rates@[i].rate;
            let numer = if care {
                health.numer + params.care_rate.numer
            } else {
                health.numer as int
            };
            let n = ctx.standard_monthly_remuneration * numer;
            let d = 2 * health.denom;
            let share = r->Ok_0.health_related_amount@;
            &&& r->Ok_0.breakdown@[0].standard_monthly_remuneration@
                == ctx.standard_monthly_remuneration
            &&& r->Ok_0.health_standard_monthly_remuneration@ == ctx.standard_monthly_remuneration
            &&& 2 * d * share <= 2 * n + d
            &&& 2 * n <= 2 * d * share + d
        }),
{
    let rates = params.prefecture_health_rates@;
    let matches = |e: PrefectureHealthInsuranceRate| e.prefecture == ctx.prefecture;
    lemma_first_index(rates, matches, i);
    let health = rates[i].rate;
    let health_rate = if care {
        SocialInsuranceRate {
            numer: (health.numer + params.care_rate.numer) as u64,
            denom: health.denom,
        }
    } else {
        health
    };
    lemma_employee_share_is_nearest_yen(ctx.standard_monthly_remuneration as nat, health_rate, mode);
}

/// The pension's upper limit on the standard monthly remuneration bears on
/// the pension only: two calculations that differ in nothing but that limit
/// give the same health-related share and the same health breakdown line.
pub proof fn lemma_health_share_ignores_pension_cap<P: SocialInsurancePolicy>(
    r1: Result<SocialInsuranceResult, JLawError>,
    r2: Result<SocialInsuranceResult, JLawError>,
    ctx: SocialInsuranceContext<P>,
    params1: SocialInsuranceParams,
    params2: SocialInsuranceParams,
    care: bool,
    mode: EmployeeShareRoundingMode,
)
    requires
        params1.prefecture_health_rates@ == params2.prefecture_health_rates@,
        params1.care_rate == params2.care_rate,
        social_insurance_outcome(r1, ctx, params1, care, mode),
        social_insurance_outcome(r2, ctx, params2, care, mode),
        r1 is Ok,
        r2 is Ok,
    ensures
        r1->Ok_0.health_related_amount@ == r2->Ok_0.health_related_amount@,
        r1->Ok_0.breakdown@[0].standard_monthly_remuneration@
            == r2->Ok_0.breakdown@[0].standard_monthly_remuneration@,
        r1->Ok_0.breakdown@[0].amount@ == r2->Ok_0.breakdown@[0].amount@,
{
}

/// Calculates the employee's monthly share of social insurance premiums for
/// an ordinary insured person of the Japan Health Insurance Association.
///
/// Legal basis: Health Insurance Act, Article 160; Long-Term Care Insurance
/// Act, Article 129; Employees' Pension Insurance Act, Article 81; Japan
/// Pension Service guidance on rounding the 50 sen fraction.
pub fn calculate_social_insurance_premium<P: SocialInsurancePolicy>(
    ctx: &SocialInsuranceContext<P>,
    params: &SocialInsuranceParams,
) -> (r: Result<SocialInsuranceResult, JLawError>)
    ensures
        social_insurance_outcome_under_policy(r, *ctx, *params),
{
    let care = ctx.policy.should_apply_care_insurance(&ctx.flags);
    let mode = ctx.policy.employee_share_rounding_mode();
    let r = calculate_social_insurance_premium_with(ctx, params, care, mode);
    proof {
        assert(social_insurance_outcome(r, *ctx, *params, care, mode));
    }
    r
}

/// The premium for `ctx` and `params`, with the policy's answers given:
/// whether the long-term care premium is added, and the rounding of the
/// employee's share.
pub fn calculate_social_insurance_premium_with<P: SocialInsurancePolicy>(
    ctx: &SocialInsuranceContext<P>,
    params: &SocialInsuranceParams,
    care_applied: bool,
    rounding_mode: EmployeeShareRoundingMode,
) -> (r: Result<SocialInsuranceResult, JLawError>)
    ensures
        social_insurance_outcome(r, *ctx, *params, care_applied, rounding_mode),
        r matches Ok(res) ==> res.breakdown@[0].standard_monthly_remuneration@
            == ctx.standard_monthly_remuneration,
{
    let smr = ctx.standard_monthly_remuneration;
    let mut j: usize = 0;
    let mut listed = false;
    while j < params.valid_standard_monthly_remunerations.len()
        invariant_except_break
            !listed,
        invariant
            0 <= j <= params.valid_standard_monthly_remunerations@.len(),
            forall|k: int| 0 <= k < j ==> params.valid_standard_monthly_remunerations@[k] != smr,
        ensures
            listed ==> params.valid_standard_monthly_remunerations@.contains(smr),
            !listed ==> !params.valid_standard_monthly_remunerations@.contains(smr),
        decreases params.valid_standard_monthly_remunerations@.len() - j,
    {
        if params.valid_standard_monthly_remunerations[j] == smr {
            listed = true;
            proof {
                assert(params.valid_standard_monthly_remunerations@[j as int] == smr);
            }
            break;
        }
        j = j + 1;
    }
    if !listed {
        return Err(
            not_applicable(
                with_decimal(
                    "標準報酬月額 ",
                    smr,
                    "円 は協会けんぽの標準報酬月額表に存在しません",
                ),
            ),
        );
    }

    let ghost matches = |e: PrefectureHealthInsuranceRate| e.prefecture == ctx.prefecture;
    let mut i: usize = 0;
    while i < params.prefecture_health_rates.len()
        invariant
            0 <= i <= params.prefecture_health_rates@.len(),
            matches == (|e: PrefectureHealthInsuranceRate| e.prefecture == ctx.prefecture),
            forall|k: int| 0 <= k < i ==> !matches(#[trigger] params.prefecture_health_rates@[k]),
        ensures
            0 <= i <= params.prefecture_health_rates@.len(),
            i == params.prefecture_health_rates@.len() || matches(
                params.prefecture_health_rates@[i as int],
            ),
        decreases params.prefecture_health_rates@.len() - i,
    {
        if params.prefecture_health_rates[i].prefecture == ctx.prefecture {
            break;
        }
        i = i + 1;
    }
    proof {
        lemma_first_index(params.prefecture_health_rates@, matches, i as int);
    }
    if i == params.prefecture_health_rates.len() {
        return Err(
            not_applicable(
                with_decimal(
                    "都道府県コード ",
                    ctx.prefecture.code() as u64,
                    " に対応する健康保険料率が見つかりません",
                ),
            ),
        );
    }
    let health_rate = params.prefecture_health_rates[i].rate;

    let health_related_rate = if care_applied {
        match health_rate.numer.checked_add(params.care_rate.numer) {
            Some(numer) => SocialInsuranceRate { numer, denom: health_rate.denom },
            None => return Err(overflow("social_insurance_health_related_rate")),
        }
    } else {
        health_rate
    };

    let health_raw = calculate_raw_employee_share(smr, health_related_rate, "social_insurance_health_related")?;
    let health_amount = round_employee_share(&health_raw, rounding_mode, "social_insurance_health_related")?;

    let pension_smr = if smr <= params.pension_standard_monthly_remuneration_cap {
        smr
    } else {
        params.pension_standard_monthly_remuneration_cap
    };
    let pension_raw = calculate_raw_employee_share(pension_smr, params.pension_rate, "social_insurance_pension")?;
    let pension_amount = round_employee_share(&pension_raw, rounding_mode, "social_insurance_pension")?;

    let total_amount = match health_amount.as_yen().checked_add(pension_amount.as_yen()) {
        Some(t) => FinalAmount::new(t),
        None => return Err(overflow("social_insurance_total")),
    };

    let health_label = if care_applied {
        String::from_str("健康保険料・介護保険料")
    } else {
        String::from_str("健康保険料")
    };

    let mut breakdown = Vec::new();
    breakdown.push(
        SocialInsuranceBreakdownStep {
            label: health_label,
            standard_monthly_remuneration: FinalAmount::new(smr),
            rate_numer: health_related_rate.numer,
            rate_denom: health_related_rate.denom,
            raw_employee_share: health_raw,
            amount: health_amount,
        },
    );
    breakdown.push(
        SocialInsuranceBreakdownStep {
            label: String::from_str("厚生年金保険料"),
            standard_monthly_remuneration: FinalAmount::new(pension_smr),
            rate_numer: params.pension_rate.numer,
            rate_denom: params.pension_rate.denom,
            raw_employee_share: pension_raw,
            amount: pension_amount,
        },
    );

    Ok(
        SocialInsuranceResult {
            health_related_amount: health_amount,
            pension_amount,
            total_amount,
            health_standard_monthly_remuneration: FinalAmount::new(smr),
            pension_standard_monthly_remuneration: FinalAmount::new(pension_smr),
            care_insurance_applied: care_applied,
            applied_flags: ctx.flags.duplicate(),
            breakdown,
        },
    )
}

/// Half of `remuneration × rate` as the exact fraction `n / (2 × denom)`.
fn calculate_raw_employee_share(remuneration: u64, rate: SocialInsuranceRate, step: &str) -> (r: Result<
    IntermediateAmount,
    JLawError,
>)
    ensures
        ({
            let n = remuneration * (rate.numer as nat);
            let d = 2 * (rate.denom as nat);
            &&& (n > u64::MAX || d > u64::MAX) ==> fails_as(r, Failure::Overflow(step@))
            &&& (n <= u64::MAX && d <= u64::MAX && d == 0) ==> fails_as(r, Failure::ZeroDenominator)
            &&& (n <= u64::MAX && d <= u64::MAX && d != 0) ==> (r matches Ok(raw) && raw_share_is(
                raw,
                remuneration as nat,
                rate,
            ))
        }),
{
    let numerator = match remuneration.checked_mul(rate.numer) {
        Some(v) => v,
        None => return Err(overflow(step)),
    };
    let denominator = match rate.denom.checked_mul(2) {
        Some(v) => v,
        None => return Err(overflow(step)),
    };
    if denominator == 0 {
        return Err(JLawError::Input(crate::error::InputError::ZeroDenominator));
    }
    let whole = numerator / denominator;
    let numer = numerator % denominator;
    match IntermediateAmount::try_new(whole, numer, denominator) {
        Ok(a) => Ok(a),
        Err(e) => Err(JLawError::Input(e)),
    }
}

/// Rounds the employee's share to yen under `mode`.
fn round_employee_share(raw: &IntermediateAmount, mode: EmployeeShareRoundingMode, step: &str) -> (r:
    Result<FinalAmount, JLawError>)
    requires
        raw.denom_part() > 0,
        raw.numer_part() < raw.denom_part(),
    ensures
        ({
            let rem = raw.numer_part() as nat;
            let d = raw.denom_part() as nat;
            let q = raw.whole_part() as nat;
            if rem != 0 && 2 * rem > u64::MAX {
                fails_as(r, Failure::Overflow(step@))
            } else if rounds_up(rem, d, mode) && q + 1 > u64::MAX {
                fails_as(r, Failure::Overflow(step@))
            } else {
                r matches Ok(f) && f@ == if rounds_up(rem, d, mode) {
                    q + 1
                } else {
                    q
                }
            }
        }),
{
    let whole = raw.whole();
    let numer = raw.numer();
    let denom = raw.denom();
    if numer == 0 {
        return Ok(FinalAmount::new(whole));
    }
    let doubled_remainder = match numer.checked_mul(2) {
        Some(v) => v,
        None => return Err(overflow(step)),
    };
    let should_round_up = if doubled_remainder < denom {
        false
    } else if doubled_remainder > denom {
        true
    } else {
        match mode {
            EmployeeShareRoundingMode::CashPayment => true,
            EmployeeShareRoundingMode::PayrollDeduction => false,
        }
    };
    let amount = if should_round_up {
        match whole.checked_add(1) {
            Some(v) => v,
            None => return Err(overflow(step)),
        }
    } else {
        whole
    };
    Ok(FinalAmount::new(amount))
}

} // verus!
