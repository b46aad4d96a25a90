use vstd::prelude::*;

use crate::domains::income_tax::deduction::context::{
    DependentDeductionInput, IncomeDeductionContext, SpouseDeductionInput,
};
use crate::domains::income_tax::deduction::params::{
    BasicDeductionBracket, BasicDeductionParams, DependentDeductionParams, PersonalDeductionParams,
    SpouseDeductionParams, SpouseIncomeBracket,
};
use crate::domains::income_tax::deduction::types::{IncomeDeductionKind, IncomeDeductionLine, line_is};
use crate::error::{fails_as, overflow, Failure, JLawError, not_applicable};
use crate::search::{first_index, lemma_first_index};
use crate::text::{decimal, with_decimal};
use crate::types::amount::FinalAmount;

verus! {

/// Whether `income` falls in the basic deduction bracket `b`.
pub open spec fn basic_bracket_matches(income: nat, b: BasicDeductionBracket) -> bool {
    income >= b.income_from && (b.income_to_inclusive matches Some(to) ==> income <= to)
}

/// Whether the taxpayer's `income` falls in the spouse bracket `b`.
pub open spec fn spouse_bracket_matches(income: nat, b: SpouseIncomeBracket) -> bool {
    income >= b.taxpayer_income_from && (b.taxpayer_income_to_inclusive matches Some(to) ==> income
        <= to)
}

/// The basic deduction for total income `income`.
pub open spec fn basic_deduction_amount(income: nat, p: BasicDeductionParams) -> Result<nat, Failure> {
    let idx = first_index(p.brackets@, |b: BasicDeductionBracket| basic_bracket_matches(income, b));
    if idx == p.brackets@.len() {
        Err(
            Failure::NotApplicable(
                "総所得金額等 "@ + decimal(income) + "円 に対応する基礎控除ブラケットが見つかりません"@,
            ),
        )
    } else {
        Ok(p.brackets@[idx].deduction_amount as nat)
    }
}

/// The deduction for a spouse, for a taxpayer with total income `income`.
pub open spec fn spouse_deduction_amount(
    income: nat,
    spouse: Option<SpouseDeductionInput>,
    p: SpouseDeductionParams,
) -> Result<nat, Failure> {
    match spouse {
        None => Ok(0),
        Some(s) => if !s.is_same_household || s.spouse_total_income_amount
            > p.qualifying_spouse_income_max {
            Ok(0)
        } else {
            let idx = first_index(
                p.taxpayer_income_brackets@,
                |b: SpouseIncomeBracket| spouse_bracket_matches(income, b),
            );
            if idx == p.taxpayer_income_brackets@.len() {
                Err(
                    Failure::NotApplicable(
                        "総所得金額等 "@ + decimal(income)
                            + "円 に対応する配偶者控除ブラケットが見つかりません"@,
                    ),
                )
            } else if s.is_elderly {
                Ok(p.taxpayer_income_brackets@[idx].elderly_deduction_amount as nat)
            } else {
                Ok(p.taxpayer_income_brackets@[idx].deduction_amount as nat)
            }
        },
    }
}

/// The deduction for dependents: each count times its amount, summed, with
/// the first overflow met.
pub open spec fn dependent_deduction_amount(d: DependentDeductionInput, p: DependentDeductionParams) -> Result<
    nat,
    Failure,
> {
    let g = d.general_count * p.general_deduction_amount;
    let s = d.specific_count * p.specific_deduction_amount;
    let ec = d.elderly_cohabiting_count * p.elderly_cohabiting_deduction_amount;
    let eo = d.elderly_other_count * p.elderly_other_deduction_amount;
    if g > u64::MAX {
        Err(Failure::Overflow("dependent_general"@))
    } else if s > u64::MAX {
        Err(Failure::Overflow("dependent_specific"@))
    } else if g + s > u64::MAX {
        Err(Failure::Overflow("dependent_total"@))
    } else if ec > u64::MAX {
        Err(Failure::Overflow("dependent_elderly_cohabiting"@))
    } else if g + s + ec > u64::MAX {
        Err(Failure::Overflow("dependent_total"@))
    } else if eo > u64::MAX {
        Err(Failure::Overflow("dependent_elderly_other"@))
    } else if g + s + ec + eo > u64::MAX {
        Err(Failure::Overflow("dependent_total"@))
    } else {
        Ok((g + s + ec + eo) as nat)
    }
}

/// The three deductions for persons (basic, spouse, dependents), or the
/// first failure met.
pub open spec fn personal_deduction_amounts(ctx: IncomeDeductionContext, p: PersonalDeductionParams) -> Result<
    Seq<nat>,
    Failure,
> {
    let income = ctx.total_income_amount as nat;
    match basic_deduction_amount(income, p.basic) {
        Err(f) => Err(f),
        Ok(a) => match spouse_deduction_amount(income, ctx.deductions.personal.spouse, p.spouse) {
            Err(f) => Err(f),
            Ok(b) => match dependent_deduction_amount(ctx.deductions.personal.dependent, p.dependent) {
                Err(f) => Err(f),
                Ok(c) => Ok(seq![a, b, c]),
            },
        },
    }
}

/// The lines of the deductions for persons: basic, spouse, dependents.
pub open spec fn personal_lines_are(lines: Seq<IncomeDeductionLine>, amounts: Seq<nat>) -> bool {
    &&& lines.len() == 3
    &&& line_is(lines[0], IncomeDeductionKind::Basic, "基礎控除"@, amounts[0])
    &&& line_is(lines[1], IncomeDeductionKind::Spouse, "配偶者控除"@, amounts[1])
    &&& line_is(lines[2], IncomeDeductionKind::Dependent, "扶養控除"@, amounts[2])
}

/// Calculates the deductions for persons: basic (Article 86), spouse
/// (Article 83) and dependents (Article 84), in that order.
pub fn calculate_personal_deductions(
    ctx: &IncomeDeductionContext,
    params: &PersonalDeductionParams,
) -> (r: Result<Vec<IncomeDeductionLine>, JLawError>)
    ensures
        match personal_deduction_amounts(*ctx, *params) {
            Err(f) => fails_as(r, f),
            Ok(amounts) => r matches Ok(lines) && personal_lines_are(lines@, amounts),
        },
        r matches Ok(lines) ==> lines@[2].amount@ == ctx.deductions.personal.dependent.general_count
            * params.dependent.general_deduction_amount
            + ctx.deductions.personal.dependent.specific_count
            * params.dependent.specific_deduction_amount
            + ctx.deductions.personal.dependent.elderly_cohabiting_count
            * params.dependent.elderly_cohabiting_deduction_amount
            + ctx.deductions.personal.dependent.elderly_other_count
            * params.dependent.elderly_other_deduction_amount,
{
    let basic = calculate_basic_deduction(ctx, &params.basic)?;
    let spouse = calculate_spouse_deduction(ctx, &params.spouse)?;
    let dependent = calculate_dependent_deduction(ctx, &params.dependent)?;
    let mut lines = Vec::new();
    lines.push(basic);
    lines.push(spouse);
    lines.push(dependent);
    Ok(lines)
}

fn calculate_basic_deduction(ctx: &IncomeDeductionContext, params: &BasicDeductionParams) -> (r:
    Result<IncomeDeductionLine, JLawError>)
    ensures
        match basic_deduction_amount(ctx.total_income_amount as nat, *params) {
            Err(f) => fails_as(r, f),
            Ok(a) => r matches Ok(l) && line_is(l, IncomeDeductionKind::Basic, "基礎控除"@, a),
        },
{
    let income = ctx.total_income_amount;
    let ghost matches = |b: BasicDeductionBracket| basic_bracket_matches(income as nat, b);
    let mut i: usize = 0;
    while i < params.brackets.len()
        invariant
            0 <= i <= params.brackets@.len(),
            matches == (|b: BasicDeductionBracket| basic_bracket_matches(income as nat, b)),
            forall|k: int| 0 <= k < i ==> !matches(#[trigger] params.brackets@[k]),
        ensures
            0 <= i <= params.brackets@.len(),
            i == params.brackets@.len() || matches(params.brackets@[i as int]),
        decreases params.brackets@.len() - i,
    {
        if matches_basic_bracket(income, &params.brackets[i]) {
            break;
        }
        i = i + 1;
    }
    proof {
        lemma_first_index(params.brackets@, matches, i as int);
    }
    if i == params.brackets.len() {
        return Err(
            not_applicable(
                with_decimal(
                    "総所得金額等 ",
                    income,
                    "円 に対応する基礎控除ブラケットが見つかりません",
                ),
            ),
        );
    }
    Ok(
        IncomeDeductionLine {
            kind: IncomeDeductionKind::Basic,
            label: String::from_str("基礎控除"),
            amount: FinalAmount::new(params.brackets[i].deduction_amount),
        },
    )
}

fn calculate_spouse_deduction(ctx: &IncomeDeductionContext, params: &SpouseDeductionParams) -> (r:
    Result<IncomeDeductionLine, JLawError>)
    ensures
        match spouse_deduction_amount(
            ctx.total_income_amount as nat,
            ctx.deductions.personal.spouse,
            *params,
        ) {
            Err(f) => fails_as(r, f),
            Ok(a) => r matches Ok(l) && line_is(l, IncomeDeductionKind::Spouse, "配偶者控除"@, a),
        },
{
    let spouse = match ctx.deductions.personal.spouse {
        Some(s) => s,
        None => return Ok(zero_line(IncomeDeductionKind::Spouse, "配偶者控除")),
    };
    if !spouse.is_same_household || spouse.spouse_total_income_amount
        > params.qualifying_spouse_income_max {
        return Ok(zero_line(IncomeDeductionKind::Spouse, "配偶者控除"));
    }
    let income = ctx.total_income_amount;
    let ghost matches = |b: SpouseIncomeBracket| spouse_bracket_matches(income as nat, b);
    let mut i: usize = 0;
    while i < params.taxpayer_income_brackets.len()
        invariant
            0 <= i <= params.taxpayer_income_brackets@.len(),
            matches == (|b: SpouseIncomeBracket| spouse_bracket_matches(income as nat, b)),
            forall|k: int| 0 <= k < i ==> !matches(#[trigger] params.taxpayer_income_brackets@[k]),
        ensures
            0 <= i <= params.taxpayer_income_brackets@.len(),
            i == params.taxpayer_income_brackets@.len() || matches(
                params.taxpayer_income_brackets@[i as int],
            ),
        decreases params.taxpayer_income_brackets@.len() - i,
    {
        if matches_spouse_bracket(income, &params.taxpayer_income_brackets[i]) {
            break;
        }
        i = i + 1;
    }
    proof {
        lemma_first_index(params.taxpayer_income_brackets@, matches, i as int);
    }
    if i == params.taxpayer_income_brackets.len() {
        return Err(
            not_applicable(
                with_decimal(
                    "総所得金額等 ",
                    income,
                    "円 に対応する配偶者控除ブラケットが見つかりません",
                ),
            ),
        );
    }
    let bracket = &params.taxpayer_income_brackets[i];
    let amount = if spouse.is_elderly {
        bracket.elderly_deduction_amount
    } else {
        bracket.deduction_amount
    };
    Ok(
        IncomeDeductionLine {
            kind: IncomeDeductionKind::Spouse,
            label: String::from_str("配偶者控除"),
            amount: FinalAmount::new(amount),
        },
    )
}

fn calculate_dependent_deduction(ctx: &IncomeDeductionContext, params: &DependentDeductionParams) -> (r:
    Result<IncomeDeductionLine, JLawError>)
    ensures
        match dependent_deduction_amount(ctx.deductions.personal.dependent, *params) {
            Err(f) => fails_as(r, f),
            Ok(a) => r matches Ok(l) && line_is(l, IncomeDeductionKind::Dependent, "扶養控除"@, a),
        },
        r matches Ok(l) ==> l.amount@ == ctx.deductions.personal.dependent.general_count
            * params.general_deduction_amount + ctx.deductions.personal.dependent.specific_count
            * params.specific_deduction_amount
            + ctx.deductions.personal.dependent.elderly_cohabiting_count
            * params.elderly_cohabiting_deduction_amount
            + ctx.deductions.personal.dependent.elderly_other_count
            * params.elderly_other_deduction_amount,
{
    let dependent = ctx.deductions.personal.dependent;
    let general = multiply_count(dependent.general_count, params.general_deduction_amount, "dependent_general")?;
    let specific = multiply_count(dependent.specific_count, params.specific_deduction_amount, "dependent_specific")?;
    let mut amount = match general.checked_add(specific) {
        Some(v) => v,
        None => return Err(overflow("dependent_total")),
    };
    let cohabiting = multiply_count(
        dependent.elderly_cohabiting_count,
        params.elderly_cohabiting_deduction_amount,
        "dependent_elderly_cohabiting",
    )?;
    amount = match amount.checked_add(cohabiting) {
        Some(v) => v,
        None => return Err(overflow("dependent_total")),
    };
    let other = multiply_count(
        dependent.elderly_other_count,
        params.elderly_other_deduction_amount,
        "dependent_elderly_other",
    )?;
    amount = match amount.checked_add(other) {
        Some(v) => v,
        None => return Err(overflow("dependent_total")),
    };
    Ok(
        IncomeDeductionLine {
            kind: IncomeDeductionKind::Dependent,
            label: String::from_str("扶養控除"),
            amount: FinalAmount::new(amount),
        },
    )
}

fn matches_basic_bracket(income: u64, bracket: &BasicDeductionBracket) -> (r: bool)
    ensures
        r == basic_bracket_matches(income as nat, *bracket),
{
    income >= bracket.income_from && match bracket.income_to_inclusive {
        Some(to) => income <= to,
        None => true,
    }
}

fn matches_spouse_bracket(income: u64, bracket: &SpouseIncomeBracket) -> (r: bool)
    ensures
        r == spouse_bracket_matches(income as nat, *bracket),
{
    income >= bracket.taxpayer_income_from && match bracket.taxpayer_income_to_inclusive {
        Some(to) => income <= to,
        None => true,
    }
}

fn multiply_count(count: u16, amount: u64, step: &str) -> (r: Result<u64, JLawError>)
    ensures
        count * amount <= u64::MAX ==> (r matches Ok(v) && v == count * amount),
        count * amount > u64::MAX ==> fails_as(r, Failure::Overflow(step@)),
{
    match (count as u64).checked_mul(amount) {
        Some(v) => Ok(v),
        None => Err(overflow(step)),
    }
}

/// A line of amount zero.
pub fn zero_line(kind: IncomeDeductionKind, label: &str) -> (l: IncomeDeductionLine)
    ensures
        line_is(l, kind, label@, 0),
{
    IncomeDeductionLine { kind, label: String::from_str(label), amount: FinalAmount::new(0) }
}

} // verus!
