pub mod calculator;
pub mod context;
pub mod params;
pub mod policy;

pub use calculator::{
    calculate_social_insurance_premium, SocialInsuranceBreakdownStep, SocialInsuranceResult,
};
pub use context::{SocialInsuranceContext, SocialInsuranceFlag, SocialInsurancePrefecture};
pub use params::{PrefectureHealthInsuranceRate, SocialInsuranceParams, SocialInsuranceRate};
pub use policy::{EmployeeShareRoundingMode, SocialInsurancePolicy, StandardNenkinPolicy};
