use vstd::prelude::*;

use crate::domains::income_tax::deduction::context::{
    DonationDeductionInput, ExpenseDeductionInput, IncomeDeductionContext,
    LifeInsuranceDeductionInput, MedicalDeductionInput,
};
use crate::domains::income_tax::deduction::params::{
    DonationDeductionParams, ExpenseDeductionParams, LifeInsuranceDeductionBracket,
    LifeInsuranceDeductionParams, MedicalDeductionParams,
};
use crate::domains::income_tax::deduction::personal::zero_line;
use crate::domains::income_tax::deduction::types::{IncomeDeductionKind, IncomeDeductionLine, line_is};
use crate::error::{fails_as, overflow, Failure, InputError, JLawError, not_applicable};
use crate::search::{first_index, lemma_first_index};
use crate::text::{decimal, push_decimal};
use crate::types::amount::FinalAmount;

verus! {

/// `amount × numer / denom` (floor), or the failure met: a zero
/// denominator, or an overflow of the product at `step`.
pub open spec fn rate_amount(amount: nat, numer: nat, denom: nat, step: Seq<char>) -> Result<nat, Failure> {
    if denom == 0 {
        Err(Failure::ZeroDenominator)
    } else if amount * numer > u64::MAX {
        Err(Failure::Overflow(step))
    } else {
        Ok(amount * numer / denom)
    }
}

/// The smaller of two numbers.
pub open spec fn min_of(a: nat, b: nat) -> nat {
    if a <= b {
        a
    } else {
        b
    }
}

/// `a - b`, or zero when `b` exceeds `a`.
pub open spec fn minus_or_zero(a: nat, b: nat) -> nat {
    if a >= b {
        (a - b) as nat
    } else {
        0
    }
}

/// The deduction for medical expenses, for total income `income`.
pub open spec fn medical_deduction_amount(
    income: nat,
    medical: Option<MedicalDeductionInput>,
    p: MedicalDeductionParams,
) -> Result<nat, Failure> {
    match medical {
        None => Ok(0),
        Some(m) => if m.reimbursed_amount > m.medical_expense_paid {
            Err(
                Failure::InvalidDeductionInput(
                    "medical.reimbursed_amount"@,
                    "補填額が支払医療費を上回っています"@,
                ),
            )
        } else {
            match rate_amount(
                income,
                p.income_threshold_rate_numer as nat,
                p.income_threshold_rate_denom as nat,
                "medical_income_threshold"@,
            ) {
                Err(f) => Err(f),
                Ok(income_threshold) => {
                    let threshold = min_of(income_threshold, p.threshold_cap_amount as nat);
                    let net = (m.medical_expense_paid - m.reimbursed_amount) as nat;
                    Ok(min_of(minus_or_zero(net, threshold), p.deduction_cap_amount as nat))
                },
            }
        },
    }
}

/// Whether `paid` falls in the life insurance bracket `b`.
pub open spec fn life_bracket_matches(paid: nat, b: LifeInsuranceDeductionBracket) -> bool {
    paid >= b.paid_from && (b.paid_to_inclusive matches Some(to) ==> paid <= to)
}

/// The deduction for premiums `paid` under the table `brackets`
/// (`contract` names the kind of contract in the failure message).
pub open spec fn life_insurance_amount(
    paid: nat,
    brackets: Seq<LifeInsuranceDeductionBracket>,
    contract: Seq<char>,
) -> Result<nat, Failure> {
    let idx = first_index(brackets, |b: LifeInsuranceDeductionBracket| life_bracket_matches(paid, b));
    let b = brackets[idx];
    if paid == 0 {
        Ok(0)
    } else if idx == brackets.len() {
        Err(
            Failure::NotApplicable(
                contract + "の生命保険料控除ブラケットが見つかりません: "@ + decimal(paid) + "円"@,
            ),
        )
    } else {
        match rate_amount(
            paid,
            b.rate_numer as nat,
            b.rate_denom as nat,
            "life_insurance_bracket"@,
        ) {
            Err(f) => Err(f),
            Ok(v) => if v + b.addition_amount > u64::MAX {
                Err(Failure::Overflow("life_insurance_bracket"@))
            } else {
                Ok(min_of(v + (b.addition_amount as nat), b.deduction_cap_amount as nat))
            },
        }
    }
}

/// The deduction of one kind of insurance with new and old contracts.
pub open spec fn life_insurance_component(
    new_paid: nat,
    old_paid: nat,
    p: LifeInsuranceDeductionParams,
    step: Seq<char>,
) -> Result<nat, Failure> {
    match life_insurance_amount(new_paid, p.new_contract_brackets@, "新契約"@) {
        Err(f) => Err(f),
        Ok(new_amount) => match life_insurance_amount(
            old_paid,
            p.old_contract_brackets@,
            "旧契約"@,
        ) {
            Err(f) => Err(f),
            Ok(old_amount) => if new_paid > 0 && old_paid > 0 {
                if new_amount + old_amount > u64::MAX {
                    Err(Failure::Overflow(step))
                } else {
                    Ok(min_of(new_amount + old_amount, p.mixed_contract_cap_amount as nat))
                }
            } else if new_paid > 0 {
                Ok(min_of(new_amount, p.new_contract_cap_amount as nat))
            } else {
                Ok(min_of(old_amount, p.old_contract_cap_amount as nat))
            },
        },
    }
}

/// The deduction for life insurance premiums.
pub open spec fn life_insurance_deduction_amount(
    life: Option<LifeInsuranceDeductionInput>,
    p: LifeInsuranceDeductionParams,
) -> Result<nat, Failure> {
    match life {
        None => Ok(0),
        Some(l) => match life_insurance_component(
            l.new_general_paid_amount as nat,
            l.old_general_paid_amount as nat,
            p,
            "life_insurance_general"@,
        ) {
            Err(f) => Err(f),
            Ok(general) => match life_insurance_component(
                l.new_individual_pension_paid_amount as nat,
                l.old_individual_pension_paid_amount as nat,
                p,
                "life_insurance_pension"@,
            ) {
                Err(f) => Err(f),
                Ok(pension) => match life_insurance_amount(
                    l.new_care_medical_paid_amount as nat,
                    p.new_contract_brackets@,
                    "新契約"@,
                ) {
                    Err(f) => Err(f),
                    Ok(care_raw) => {
                        let care = min_of(care_raw, p.new_contract_cap_amount as nat);
                        if general + pension > u64::MAX || general + pension + care > u64::MAX {
                            Err(Failure::Overflow("life_insurance_total"@))
                        } else {
                            Ok(min_of(general + pension + care, p.combined_cap_amount as nat))
                        }
                    },
                },
            },
        },
    }
}

/// The deduction for donations, for total income `income`.
pub open spec fn donation_deduction_amount(
    income: nat,
    donation: Option<DonationDeductionInput>,
    p: DonationDeductionParams,
) -> Result<nat, Failure> {
    match donation {
        None => Ok(0),
        Some(d) => match rate_amount(
            income,
            p.income_cap_rate_numer as nat,
            p.income_cap_rate_denom as nat,
            "donation_income_cap"@,
        ) {
            Err(f) => Err(f),
            Ok(cap) => Ok(
                minus_or_zero(
                    min_of(d.qualified_donation_amount as nat, cap),
                    p.non_deductible_amount as nat,
                ),
            ),
        },
    }
}

/// The four deductions for expenses (social insurance, medical, life
/// insurance, donations), or the first failure met.
pub open spec fn expense_deduction_amounts(ctx: IncomeDeductionContext, p: ExpenseDeductionParams) -> Result<
    Seq<nat>,
    Failure,
> {
    let income = ctx.total_income_amount as nat;
    let e = ctx.deductions.expense;
    match medical_deduction_amount(income, e.medical, p.medical) {
        Err(f) => Err(f),
        Ok(b) => match life_insurance_deduction_amount(e.life_insurance, p.life_insurance) {
            Err(f) => Err(f),
            Ok(c) => match donation_deduction_amount(income, e.donation, p.donation) {
                Err(f) => Err(f),
                Ok(d) => Ok(seq![e.social_insurance_premium_paid as nat, b, c, d]),
            },
        },
    }
}

/// The lines of the deductions for expenses: social insurance, medical,
/// life insurance, donations.
pub open spec fn expense_lines_are(lines: Seq<IncomeDeductionLine>, amounts: Seq<nat>) -> bool {
    &&& lines.len() == 4
    &&& line_is(lines[0], IncomeDeductionKind::SocialInsurance, "社会保険料控除"@, amounts[0])
    &&& line_is(lines[1], IncomeDeductionKind::Medical, "医療費控除"@, amounts[1])
    &&& line_is(lines[2], IncomeDeductionKind::LifeInsurance, "生命保険料控除"@, amounts[2])
    &&& line_is(lines[3], IncomeDeductionKind::Donation, "寄附金控除"@, amounts[3])
}

/// Calculates the deductions for expenses: social insurance premiums
/// (Article 74), medical expenses (Article 73), life insurance premiums
/// (Article 76) and donations (Article 78), in that order.
pub fn calculate_expense_deductions(
    ctx: &IncomeDeductionContext,
    params: &ExpenseDeductionParams,
) -> (r: Result<Vec<IncomeDeductionLine>, JLawError>)
    ensures
        match expense_deduction_amounts(*ctx, *params) {
            Err(f) => fails_as(r, f),
            Ok(amounts) => r matches Ok(lines) && expense_lines_are(lines@, amounts),
        },
{
    let social = calculate_social_insurance_deduction(&ctx.deductions.expense);
    let medical = calculate_medical_deduction(ctx, &params.medical)?;
    let life = calculate_life_insurance_deduction(ctx, &params.life_insurance)?;
    let donation = calculate_donation_deduction(ctx, &params.donation)?;
    let mut lines = Vec::new();
    lines.push(social);
    lines.push(medical);
    lines.push(life);
    lines.push(donation);
    Ok(lines)
}

fn calculate_social_insurance_deduction(expense: &ExpenseDeductionInput) -> (l: IncomeDeductionLine)
    ensures
        line_is(
            l,
            IncomeDeductionKind::SocialInsurance,
            "社会保険料控除"@,
            expense.social_insurance_premium_paid as nat,
        ),
{
    IncomeDeductionLine {
        kind: IncomeDeductionKind::SocialInsurance,
        label: String::from_str("社会保険料控除"),
        amount: FinalAmount::new(expense.social_insurance_premium_paid),
    }
}

fn calculate_medical_deduction(ctx: &IncomeDeductionContext, params: &MedicalDeductionParams) -> (r:
    Result<IncomeDeductionLine, JLawError>)
    ensures
        match medical_deduction_amount(
            ctx.total_income_amount as nat,
            ctx.deductions.expense.medical,
            *params,
        ) {
            Err(f) => fails_as(r, f),
            Ok(a) => r matches Ok(l) && line_is(l, IncomeDeductionKind::Medical, "医療費控除"@, a),
        },
{
    let medical = match ctx.deductions.expense.medical {
        Some(m) => m,
        None => return Ok(zero_line(IncomeDeductionKind::Medical, "医療費控除")),
    };
    let net_paid = match medical.medical_expense_paid.checked_sub(medical.reimbursed_amount) {
        Some(v) => v,
        None => return Err(
            JLawError::Input(
                InputError::InvalidDeductionInput {
                    field: String::from_str("medical.reimbursed_amount"),
                    reason: String::from_str("補填額が支払医療費を上回っています"),
                },
            ),
        ),
    };
    let income_threshold = calculate_rate_amount(
        ctx.total_income_amount,
        params.income_threshold_rate_numer,
        params.income_threshold_rate_denom,
        "medical_income_threshold",
    )?;
    let threshold = if income_threshold <= params.threshold_cap_amount {
        income_threshold
    } else {
        params.threshold_cap_amount
    };
    let over = net_paid.saturating_sub(threshold);
    let deduction_amount = if over <= params.deduction_cap_amount {
        over
    } else {
        params.deduction_cap_amount
    };
    Ok(
        IncomeDeductionLine {
            kind: IncomeDeductionKind::Medical,
            label: String::from_str("医療費控除"),
            amount: FinalAmount::new(deduction_amount),
        },
    )
}

fn calculate_life_insurance_deduction(
    ctx: &IncomeDeductionContext,
    params: &LifeInsuranceDeductionParams,
) -> (r: Result<IncomeDeductionLine, JLawError>)
    ensures
        match life_insurance_deduction_amount(ctx.deductions.expense.life_insurance, *params) {
            Err(f) => fails_as(r, f),
            Ok(a) => r matches Ok(l) && line_is(
                l,
                IncomeDeductionKind::LifeInsurance,
                "生命保険料控除"@,
                a,
            ),
        },
{
    let life_insurance = match ctx.deductions.expense.life_insurance {
        Some(l) => l,
        None => return Ok(zero_line(IncomeDeductionKind::LifeInsurance, "生命保険料控除")),
    };
    let general = calculate_life_insurance_component(
        life_insurance.new_general_paid_amount,
        life_insurance.old_general_paid_amount,
        params,
        "life_insurance_general",
    )?;
    let pension = calculate_life_insurance_component(
        life_insurance.new_individual_pension_paid_amount,
        life_insurance.old_individual_pension_paid_amount,
        params,
        "life_insurance_pension",
    )?;
    let care = calculate_life_insurance_new_amount(life_insurance.new_care_medical_paid_amount, params)?;
    let sum = match general.checked_add(pension) {
        Some(v) => v,
        None => return Err(overflow("life_insurance_total")),
    };
    let sum = match sum.checked_add(care) {
        Some(v) => v,
        None => return Err(overflow("life_insurance_total")),
    };
    let total = if sum <= params.combined_cap_amount {
        sum
    } else {
        params.combined_cap_amount
    };
    Ok(
        IncomeDeductionLine {
            kind: IncomeDeductionKind::LifeInsurance,
            label: String::from_str("生命保険料控除"),
            amount: FinalAmount::new(total),
        },
    )
}

fn calculate_donation_deduction(ctx: &IncomeDeductionContext, params: &DonationDeductionParams) -> (r:
    Result<IncomeDeductionLine, JLawError>)
    ensures
        match donation_deduction_amount(
            ctx.total_income_amount as nat,
            ctx.deductions.expense.donation,
            *params,
        ) {
            Err(f) => fails_as(r, f),
            Ok(a) => r matches Ok(l) && line_is(l, IncomeDeductionKind::Donation, "寄附金控除"@, a),
        },
{
    let donation = match ctx.deductions.expense.donation {
        Some(d) => d,
        None => return Ok(zero_line(IncomeDeductionKind::Donation, "寄附金控除")),
    };
    let income_cap = calculate_rate_amount(
        ctx.total_income_amount,
        params.income_cap_rate_numer,
        params.income_cap_rate_denom,
        "donation_income_cap",
    )?;
    let eligible_amount = if donation.qualified_donation_amount <= income_cap {
        donation.qualified_donation_amount
    } else {
        income_cap
    };
    let deduction_amount = eligible_amount.saturating_sub(params.non_deductible_amount);
    Ok(
        IncomeDeductionLine {
            kind: IncomeDeductionKind::Donation,
            label: String::from_str("寄附金控除"),
            amount: FinalAmount::new(deduction_amount),
        },
    )
}

fn calculate_life_insurance_component(
    new_paid_amount: u64,
    old_paid_amount: u64,
    params: &LifeInsuranceDeductionParams,
    overflow_step: &str,
) -> (r: Result<u64, JLawError>)
    ensures
        match life_insurance_component(
            new_paid_amount as nat,
            old_paid_amount as nat,
            *params,
            overflow_step@,
        ) {
            Err(f) => fails_as(r, f),
            Ok(a) => r matches Ok(v) && v == a,
        },
{
    proof {
        reveal_strlit("新契約");
        reveal_strlit("旧契約");
    }
    let new_amount = calculate_life_insurance_amount(new_paid_amount, &params.new_contract_brackets, "新契約")?;
    let old_amount = calculate_life_insurance_amount(old_paid_amount, &params.old_contract_brackets, "旧契約")?;
    if new_paid_amount > 0 && old_paid_amount > 0 {
        let sum = match new_amount.checked_add(old_amount) {
            Some(v) => v,
            None => return Err(overflow(overflow_step)),
        };
        Ok(
            if sum <= params.mixed_contract_cap_amount {
                sum
            } else {
                params.mixed_contract_cap_amount
            },
        )
    } else if new_paid_amount > 0 {
        Ok(
            if new_amount <= params.new_contract_cap_amount {
                new_amount
            } else {
                params.new_contract_cap_amount
            },
        )
    } else {
        Ok(
            if old_amount <= params.old_contract_cap_amount {
                old_amount
            } else {
                params.old_contract_cap_amount
            },
        )
    }
}

fn calculate_life_insurance_new_amount(paid_amount: u64, params: &LifeInsuranceDeductionParams) -> (r:
    Result<u64, JLawError>)
    ensures
        match life_insurance_amount(paid_amount as nat, params.new_contract_brackets@, "新契約"@) {
            Err(f) => fails_as(r, f),
            Ok(a) => r matches Ok(v) && v == min_of(a, params.new_contract_cap_amount as nat),
        },
{
    let amount = calculate_life_insurance_amount(paid_amount, &params.new_contract_brackets, "新契約")?;
    Ok(
        if amount <= params.new_contract_cap_amount {
            amount
        } else {
            params.new_contract_cap_amount
        },
    )
}

fn calculate_life_insurance_amount(
    paid_amount: u64,
    brackets: &Vec<LifeInsuranceDeductionBracket>,
    contract_label: &str,
) -> (r: Result<u64, JLawError>)
    ensures
        match life_insurance_amount(paid_amount as nat, brackets@, contract_label@) {
            Err(f) => fails_as(r, f),
            Ok(a) => r matches Ok(v) && v == a,
        },
{
    let ghost matches = |b: LifeInsuranceDeductionBracket| life_bracket_matches(paid_amount as nat, b);
    if paid_amount == 0 {
        return Ok(0);
    }
    let mut i: usize = 0;
    while i < brackets.len()
        invariant
            0 <= i <= brackets@.len(),
            matches == (|b: LifeInsuranceDeductionBracket| life_bracket_matches(paid_amount as nat, b)),
            forall|k: int| 0 <= k < i ==> !matches(#[trigger] brackets@[k]),
        ensures
            0 <= i <= brackets@.len(),
            i == brackets@.len() || matches(brackets@[i as int]),
        decreases brackets@.len() - i,
    {
        if matches_life_insurance_bracket(paid_amount, &brackets[i]) {
            break;
        }
        i = i + 1;
    }
    proof {
        lemma_first_index(brackets@, matches, i as int);
    }
    if i == brackets.len() {
        let mut reason = String::from_str(contract_label);
        reason.append("の生命保険料控除ブラケットが見つかりません: ");
        push_decimal(&mut reason, paid_amount);
        reason.append("円");
        return Err(not_applicable(reason));
    }
    let bracket = &brackets[i];
    let rated = calculate_rate_amount(
        paid_amount,
        bracket.rate_numer,
        bracket.rate_denom,
        "life_insurance_bracket",
    )?;
    let computed = match rated.checked_add(bracket.addition_amount) {
        Some(v) => v,
        None => return Err(overflow("life_insurance_bracket")),
    };
    Ok(
        if computed <= bracket.deduction_cap_amount {
            computed
        } else {
            bracket.deduction_cap_amount
        },
    )
}

fn matches_life_insurance_bracket(paid_amount: u64, bracket: &LifeInsuranceDeductionBracket) -> (r: bool)
    ensures
        r == life_bracket_matches(paid_amount as nat, *bracket),
{
    paid_amount >= bracket.paid_from && match bracket.paid_to_inclusive {
        Some(to) => paid_amount <= to,
        None => true,
    }
}

fn calculate_rate_amount(amount: u64, numer: u64, denom: u64, overflow_step: &str) -> (r: Result<
    u64,
    JLawError,
>)
    ensures
        match rate_amount(amount as nat, numer as nat, denom as nat, overflow_step@) {
            Err(f) => fails_as(r, f),
            Ok(a) => r matches Ok(v) && v == a,
        },
{
    if denom == 0 {
        return Err(JLawError::Input(InputError::ZeroDenominator));
    }
    let multiplied = match amount.checked_mul(numer) {
        Some(v) => v,
        None => return Err(overflow(overflow_step)),
    };
    Ok(multiplied / denom)
}

} // verus!
