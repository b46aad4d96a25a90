use vstd::prelude::*;

use crate::domains::social_insurance::context::SocialInsuranceFlag;
use crate::flags::FlagSet;

verus! {

/// How the employee's share is rounded to yen.
///
/// Source: Japan Pension Service, on rounding the insured person's share.
#[derive(Debug, Clone, Copy, PartialEq, Eq, Structural)]
pub enum EmployeeShareRoundingMode {
    /// Deducted from salary or bonus: up to 50 sen rounds down, above 50 sen
    /// rounds up.
    PayrollDeduction,
    /// Paid by the insured person in cash: below 50 sen rounds down, 50 sen
    /// and above rounds up.
    CashPayment,
}

/// The policy of the social insurance premium calculation.
///
/// Users may supply their own policy; nothing is assumed of what its
/// methods return, and the calculation states its result in terms of the
/// answers they give.
pub trait SocialInsurancePolicy {
    /// Whether the long-term care premium is added under `flags`.
    fn should_apply_care_insurance(&self, flags: &FlagSet<SocialInsuranceFlag>) -> bool;

    /// The rounding of the employee's share.
    fn employee_share_rounding_mode(&self) -> EmployeeShareRoundingMode;
}

/// The policy of the usual payroll deduction practice of the Japan Pension
/// Service.
///
/// Legal basis: Health Insurance Act, Article 160; Long-Term Care Insurance
/// Act, Article 129; Employees' Pension Insurance Act, Article 81.
#[derive(Debug, Clone, Copy)]
pub struct StandardNenkinPolicy;

impl SocialInsurancePolicy for StandardNenkinPolicy {
    /// The care premium is added exactly when its flag is given.
    fn should_apply_care_insurance(&self, flags: &FlagSet<SocialInsuranceFlag>) -> (r: bool)
        ensures
            r == flags@.contains(SocialInsuranceFlag::IsCareInsuranceApplicable),
    {
        flags.contains(&SocialInsuranceFlag::IsCareInsuranceApplicable)
    }

    /// The share is deducted from pay.
    fn employee_share_rounding_mode(&self) -> (r: EmployeeShareRoundingMode)
        ensures
            r == EmployeeShareRoundingMode::PayrollDeduction,
    {
        EmployeeShareRoundingMode::PayrollDeduction
    }
}

} // verus!
