pub mod calculator;
pub mod context;
pub mod params;
pub mod policy;

pub use calculator::{calculate_brokerage_fee, CalculationResult, CalculationStep};
pub use context::{RealEstateContext, RealEstateFlag};
pub use params::{BrokerageFeeParams, LowCostSpecialParams, TierParam};
pub use policy::{RealEstatePolicy, StandardMlitPolicy};
