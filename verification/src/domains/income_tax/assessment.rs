use vstd::prelude::*;

use crate::domains::income_tax::calculator::{
    calculate_income_tax_inner, income_tax_outcome_under_policy, IncomeTaxResult,
};
use crate::domains::income_tax::context::IncomeTaxFlag;
use crate::domains::income_tax::deduction::calculator::{
    calculate_income_deductions, income_deductions_outcome,
};
use crate::domains::income_tax::deduction::context::IncomeDeductionContext;
use crate::domains::income_tax::deduction::params::IncomeDeductionParams;
use crate::domains::income_tax::deduction::types::IncomeDeductionResult;
use crate::domains::income_tax::params::IncomeTaxParams;
use crate::domains::income_tax::policy::IncomeTaxPolicy;
use crate::error::JLawError;
use crate::flags::FlagSet;

verus! {

/// The input of the calculation from income deductions through to the
/// income tax.
///
/// Legal basis: Income Tax Act, Articles 74, 86 and 89.
#[derive(Debug)]
pub struct IncomeTaxAssessmentContext<P: IncomeTaxPolicy> {
    /// The input of the income deductions.
    pub deduction_context: IncomeDeductionContext,
    /// The legal flags given.
    pub flags: FlagSet<IncomeTaxFlag>,
    /// The calculation policy.
    pub policy: P,
}

/// The result of the calculation from income deductions through to the
/// income tax.
#[derive(Debug, Clone)]
pub struct IncomeTaxAssessmentResult {
    /// The income deductions.
    pub deductions: IncomeDeductionResult,
    /// The income tax on the resulting taxable income.
    pub tax: IncomeTaxResult,
}

/// What the assessment gives: the result of the income deduction
/// calculation when it fails, and otherwise the deductions together with the
/// income tax on the taxable income they leave, or that calculation's error.
pub open spec fn assessment_outcome<P: IncomeTaxPolicy>(
    r: Result<IncomeTaxAssessmentResult, JLawError>,
    ctx: IncomeTaxAssessmentContext<P>,
    deduction_params: IncomeDeductionParams,
    tax_params: IncomeTaxParams,
) -> bool {
    exists|d: Result<IncomeDeductionResult, JLawError>|
        {
            &&& income_deductions_outcome(d, ctx.deduction_context, deduction_params)
            &&& match d {
                Err(e) => r == Err::<IncomeTaxAssessmentResult, JLawError>(e),
                Ok(deductions) => exists|t: Result<IncomeTaxResult, JLawError>|
                    {
                        &&& income_tax_outcome_under_policy(
                            t,
                            deductions.taxable_income@ as nat,
                            ctx.deduction_context.target_date.year,
                            ctx.flags,
                            ctx.policy,
                            tax_params,
                        )
                        &&& match t {
                            Ok(tax) => r == Ok::<IncomeTaxAssessmentResult, JLawError>(
                                IncomeTaxAssessmentResult { deductions, tax },
                            ),
                            Err(e) => r == Err::<IncomeTaxAssessmentResult, JLawError>(e),
                        }
                    },
            }
        }
}

/// Calculates the income deductions and then the income tax on the
/// taxable income they leave.
pub fn calculate_income_tax_assessment<P: IncomeTaxPolicy>(
    ctx: &IncomeTaxAssessmentContext<P>,
    deduction_params: &IncomeDeductionParams,
    tax_params: &IncomeTaxParams,
) -> (r: Result<IncomeTaxAssessmentResult, JLawError>)
    ensures
        assessment_outcome(r, *ctx, *deduction_params, *tax_params),
{
    let d = calculate_income_deductions(&ctx.deduction_context, deduction_params);
    let ghost dv = d;
    let deductions = match d {
        Err(e) => {
            proof {
                assert(income_deductions_outcome(dv, ctx.deduction_context, *deduction_params));
            }
            return Err(e);
        },
        Ok(x) => x,
    };
    let t = calculate_income_tax_inner(
        deductions.taxable_income.as_yen(),
        ctx.deduction_context.target_date,
        &ctx.flags,
        &ctx.policy,
        tax_params,
    );
    let ghost tv = t;
    let ghost deductions_v = deductions;
    let r = match t {
        Ok(tax) => Ok(IncomeTaxAssessmentResult { deductions, tax }),
        Err(e) => Err(e),
    };
    proof {
        assert(income_deductions_outcome(dv, ctx.deduction_context, *deduction_params));
        assert(income_tax_outcome_under_policy(
            tv,
            deductions_v.taxable_income@ as nat,
            ctx.deduction_context.target_date.year,
            ctx.flags,
            ctx.policy,
            *tax_params,
        ));
    }
    r
}

} // verus!
