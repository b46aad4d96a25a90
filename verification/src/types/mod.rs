pub mod amount;
pub mod citation;
pub mod date;
pub mod rate;
pub mod rounding;

pub use amount::{FinalAmount, IntermediateAmount};
pub use citation::LegalCitation;
pub use date::LegalDate;
pub use rate::{MultiplyOrder, Rate};
pub use rounding::RoundingStrategy;
