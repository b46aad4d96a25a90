use vstd::prelude::*;

use crate::domains::social_insurance::context::SocialInsurancePrefecture;

verus! {

/// A social insurance premium rate.
///
/// Legal basis: Health Insurance Act, Article 160; Employees' Pension
/// Insurance Act, Article 81.
#[derive(Debug, Clone, Copy, PartialEq, Eq, Structural)]
pub struct SocialInsuranceRate {
    pub numer: u64,
    pub denom: u64,
}

/// The health insurance rate of one prefecture (Health Insurance Act,
/// Article 160).
#[derive(Debug, Clone, Copy, PartialEq, Eq, Structural)]
pub struct PrefectureHealthInsuranceRate {
    pub prefecture: SocialInsurancePrefecture,
    pub rate: SocialInsuranceRate,
}

/// Parameters of the social insurance premium calculation.
///
/// Legal basis: Health Insurance Act, Article 160; Long-Term Care Insurance
/// Act, Article 129; Employees' Pension Insurance Act, Article 81.
#[derive(Debug, Clone)]
pub struct SocialInsuranceParams {
    /// Health insurance rates by prefecture.
    pub prefecture_health_rates: Vec<PrefectureHealthInsuranceRate>,
    /// Long-term care insurance rate.
    pub care_rate: SocialInsuranceRate,
    /// Employees' pension insurance rate.
    pub pension_rate: SocialInsuranceRate,
    /// The standard monthly remunerations that health insurance admits.
    pub valid_standard_monthly_remunerations: Vec<u64>,
    /// The upper limit of the standard monthly remuneration for the pension.
    pub pension_standard_monthly_remuneration_cap: u64,
}

} // verus!
