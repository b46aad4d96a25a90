pub mod consumption_tax;
pub mod real_estate;
pub mod income_tax;
pub mod social_insurance;
pub mod withholding_tax;
pub mod stamp_tax;
