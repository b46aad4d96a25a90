use vstd::prelude::*;

use crate::domains::income_tax::deduction::context::IncomeDeductionContext;
use crate::domains::income_tax::deduction::expense::{
    calculate_expense_deductions, expense_deduction_amounts, expense_lines_are,
};
use crate::domains::income_tax::deduction::params::IncomeDeductionParams;
use crate::domains::income_tax::deduction::personal::{
    calculate_personal_deductions, personal_deduction_amounts, personal_lines_are,
};
use crate::domains::income_tax::deduction::types::{IncomeDeductionLine, IncomeDeductionResult};
use crate::error::{fails_as, fails_with_overflow, overflow, Failure, JLawError};
use crate::types::amount::FinalAmount;

verus! {

/// The sum of a sequence of amounts.
pub open spec fn sum_of(s: Seq<nat>) -> nat
    decreases s.len(),
{
    if s.len() == 0 {
        0
    } else {
        sum_of(s.drop_last()) + s.last()
    }
}

/// The amounts of a sequence of deduction lines.
pub open spec fn line_amounts(lines: Seq<IncomeDeductionLine>) -> Seq<nat> {
    lines.map_values(|l: IncomeDeductionLine| l.amount@ as nat)
}

/// `amount` with the part below 1,000 yen dropped.
pub open spec fn below_1000_dropped(amount: nat) -> nat {
    amount / 1000 * 1000
}

/// The seven deductions, in the order of the breakdown (basic, spouse,
/// dependents, social insurance, medical, life insurance, donations), or the
/// first failure met.
pub open spec fn deduction_amounts(ctx: IncomeDeductionContext, p: IncomeDeductionParams) -> Result<
    Seq<nat>,
    Failure,
> {
    match personal_deduction_amounts(ctx, p.personal) {
        Err(f) => Err(f),
        Ok(a) => match expense_deduction_amounts(ctx, p.expense) {
            Err(f) => Err(f),
            Ok(b) => Ok(a + b),
        },
    }
}

proof fn lemma_sum_of_prefix_grows(s: Seq<nat>, i: int)
    requires
        0 <= i <= s.len(),
    ensures
        sum_of(s.subrange(0, i)) <= sum_of(s),
    decreases s.len(),
{
    if i < s.len() {
        assert(s.drop_last().subrange(0, i) =~= s.subrange(0, i));
        lemma_sum_of_prefix_grows(s.drop_last(), i);
    } else {
        assert(s.subrange(0, i) =~= s);
    }
}

/// Sums the deduction lines; an overflow is reported at the step
/// `income_deduction_total`.
pub fn sum_deductions(lines: &Vec<IncomeDeductionLine>) -> (r: Result<u64, JLawError>)
    ensures
        sum_of(line_amounts(lines@)) <= u64::MAX ==> (r matches Ok(v) && v == sum_of(
            line_amounts(lines@),
        )),
        sum_of(line_amounts(lines@)) > u64::MAX ==> fails_with_overflow(
            r,
            "income_deduction_total"@,
        ),
{
    let ghost amounts = line_amounts(lines@);
    let mut acc: u64 = 0;
    let mut i: usize = 0;
    while i < lines.len()
        invariant
            0 <= i <= lines@.len(),
            amounts == line_amounts(lines@),
            amounts.len() == lines@.len(),
            acc == sum_of(amounts.subrange(0, i as int)),
        decreases lines@.len() - i,
    {
        proof {
            assert(amounts.subrange(0, i + 1).drop_last() =~= amounts.subrange(0, i as int));
        }
        acc = match acc.checked_add(lines[i].amount.as_yen()) {
            Some(v) => v,
            None => {
                proof {
                    lemma_sum_of_prefix_grows(amounts, i + 1);
                }
                return Err(overflow("income_deduction_total"));
            },
        };
        i = i + 1;
    }
    proof {
        assert(amounts.subrange(0, i as int) =~= amounts);
    }
    Ok(acc)
}

/// Drops the part below 1,000 yen.
pub fn truncate_below_1000(amount: u64) -> (r: u64)
    ensures
        r == below_1000_dropped(amount as nat),
{
    amount / 1_000 * 1_000
}

/// What the income deduction calculation gives for `ctx` and `params`.
pub open spec fn income_deductions_outcome(
    r: Result<IncomeDeductionResult, JLawError>,
    ctx: IncomeDeductionContext,
    params: IncomeDeductionParams,
) -> bool {
    match deduction_amounts(ctx, params) {
        Err(f) => fails_as(r, f),
        Ok(amounts) => if sum_of(amounts) > u64::MAX {
            fails_with_overflow(r, "income_deduction_total"@)
        } else {
            let before = if ctx.total_income_amount >= sum_of(amounts) {
                (ctx.total_income_amount - sum_of(amounts)) as nat
            } else {
                0
            };
            r matches Ok(res) && {
                &&& personal_lines_are(res.breakdown@.subrange(0, 3), amounts.subrange(0, 3))
                &&& expense_lines_are(res.breakdown@.subrange(3, 7), amounts.subrange(3, 7))
                &&& res.breakdown@.len() == 7
                &&& res.total_income_amount@ == ctx.total_income_amount
                &&& res.total_deductions@ == sum_of(amounts)
                &&& res.taxable_income_before_truncation@ == before
                &&& res.taxable_income@ == below_1000_dropped(before)
            }
        },
    }
}

/// Changing one amount of a sequence changes its sum by the same
/// difference.
proof fn lemma_sum_of_update(s: Seq<nat>, i: int, v: nat)
    requires
        0 <= i < s.len(),
    ensures
        sum_of(s.update(i, v)) + s[i] == sum_of(s) + v,
    decreases s.len(),
{
    let u = s.update(i, v);
    if i == s.len() - 1 {
        assert(u.drop_last() =~= s.drop_last());
    } else {
        assert(u.drop_last() =~= s.drop_last().update(i, v));
        lemma_sum_of_update(s.drop_last(), i, v);
    }
}

/// Between two deduction calculations that differ only in the social
/// insurance premiums paid, the total deductions differ by exactly the
/// difference of the premiums, and the larger premiums never leave a larger
/// taxable income.
pub proof fn lemma_social_insurance_premium_effect(
    r1: Result<IncomeDeductionResult, JLawError>,
    r2: Result<IncomeDeductionResult, JLawError>,
    ctx1: IncomeDeductionContext,
    ctx2: IncomeDeductionContext,
    params: IncomeDeductionParams,
)
    requires
        ctx1.total_income_amount == ctx2.total_income_amount,
        ctx1.deductions.personal == ctx2.deductions.personal,
        ctx1.deductions.expense.medical == ctx2.deductions.expense.medical,
        ctx1.deductions.expense.life_insurance == ctx2.deductions.expense.life_insurance,
        ctx1.deductions.expense.donation == ctx2.deductions.expense.donation,
        ctx1.deductions.expense.social_insurance_premium_paid
            <= ctx2.deductions.expense.social_insurance_premium_paid,
        income_deductions_outcome(r1, ctx1, params),
        income_deductions_outcome(r2, ctx2, params),
        r1 is Ok,
        r2 is Ok,
    ensures
        r2->Ok_0.total_deductions@ == r1->Ok_0.total_deductions@ + (
        ctx2.deductions.expense.social_insurance_premium_paid
            - ctx1.deductions.expense.social_insurance_premium_paid),
        r2->Ok_0.taxable_income@ <= r1->Ok_0.taxable_income@,
{
    let a1 = deduction_amounts(ctx1, params)->Ok_0;
    let a2 = deduction_amounts(ctx2, params)->Ok_0;
    let s1 = ctx1.deductions.expense.social_insurance_premium_paid as nat;
    let s2 = ctx2.deductions.expense.social_insurance_premium_paid as nat;
    assert(personal_deduction_amounts(ctx1, params.personal) == personal_deduction_amounts(
        ctx2,
        params.personal,
    ));
    assert(a1.len() == 7 && a1[3] == s1);
    assert(a2 =~= a1.update(3, s2));
    lemma_sum_of_update(a1, 3, s2);
    let t1 = sum_of(a1);
    let t2 = sum_of(a2);
    let income = ctx1.total_income_amount as nat;
    let b1: nat = if income >= t1 { (income - t1) as nat } else { 0 };
    let b2: nat = if income >= t2 { (income - t2) as nat } else { 0 };
    assert(b2 <= b1);
    vstd::arithmetic::div_mod::lemma_div_is_ordered(b2 as int, b1 as int, 1000);
    assert(below_1000_dropped(b2) <= below_1000_dropped(b1)) by (nonlinear_arith)
        requires
            b2 / 1000 <= b1 / 1000,
    ;
}

/// Each kind of dependent is deducted at its own amount: the dependents'
/// line of the breakdown is the general count times the general amount,
/// plus the specified count times the specified amount, plus the count of
/// elderly dependents living with the taxpayer times their amount, plus the
/// count of other elderly dependents times theirs.
pub proof fn lemma_dependent_line_pairs_each_count_with_its_amount(
    r: Result<IncomeDeductionResult, JLawError>,
    ctx: IncomeDeductionContext,
    params: IncomeDeductionParams,
)
    requires
        income_deductions_outcome(r, ctx, params),
        r is Ok,
    ensures
        r->Ok_0.breakdown@[2].amount@ == ctx.deductions.personal.dependent.general_count
            * params.personal.dependent.general_deduction_amount
            + ctx.deductions.personal.dependent.specific_count
            * params.personal.dependent.specific_deduction_amount
            + ctx.deductions.personal.dependent.elderly_cohabiting_count
            * params.personal.dependent.elderly_cohabiting_deduction_amount
            + ctx.deductions.personal.dependent.elderly_other_count
            * params.personal.dependent.elderly_other_deduction_amount,
{
    let res = r->Ok_0;
    let amounts = deduction_amounts(ctx, params)->Ok_0;
    assert(res.breakdown@.subrange(0, 3)[2] == res.breakdown@[2]);
    assert(amounts.subrange(0, 3)[2] == amounts[2]);
}

/// Takes the income deductions from the total income amount and gives the
/// taxable income (Income Tax Act, Articles 73, 74, 76, 78, 83, 84 and 86).
///
/// The breakdown lists the seven deductions in order; the taxable income is
/// the total income less their sum, not below zero, with the part below
/// 1,000 yen dropped.
pub fn calculate_income_deductions(
    ctx: &IncomeDeductionContext,
    params: &IncomeDeductionParams,
) -> (r: Result<IncomeDeductionResult, JLawError>)
    ensures
        income_deductions_outcome(r, *ctx, *params),
{
    let mut breakdown = calculate_personal_deductions(ctx, &params.personal)?;
    let mut expense = calculate_expense_deductions(ctx, &params.expense)?;
    let ghost personal_lines = breakdown@;
    let ghost expense_lines = expense@;
    breakdown.append(&mut expense);
    proof {
        let amounts = deduction_amounts(*ctx, *params)->Ok_0;
        assert(breakdown@ =~= personal_lines + expense_lines);
        assert(breakdown@.subrange(0, 3) =~= personal_lines);
        assert(breakdown@.subrange(3, 7) =~= expense_lines);
        assert(amounts.subrange(0, 3) =~= personal_deduction_amounts(*ctx, params.personal)->Ok_0);
        assert(amounts.subrange(3, 7) =~= expense_deduction_amounts(*ctx, params.expense)->Ok_0);
        assert(line_amounts(breakdown@) =~= amounts);
    }

    let total_deductions_yen = sum_deductions(&breakdown)?;
    let taxable_income_before_truncation = ctx.total_income_amount.saturating_sub(total_deductions_yen);
    let taxable_income = truncate_below_1000(taxable_income_before_truncation);

    Ok(
        IncomeDeductionResult {
            total_income_amount: FinalAmount::new(ctx.total_income_amount),
            total_deductions: FinalAmount::new(total_deductions_yen),
            taxable_income_before_truncation: FinalAmount::new(taxable_income_before_truncation),
            taxable_income: FinalAmount::new(taxable_income),
            breakdown,
        },
    )
}

} // verus!
