//! Legal calculations under Japanese statutes, carried out in integer and
//! fraction arithmetic only.
pub mod domains;
pub mod error;
pub mod flags;
pub mod interface;
pub mod search;
pub mod text;
pub mod types;

pub use error::{CalculationError, InputError, JLawError, RegistryError};
pub use types::{
    FinalAmount, IntermediateAmount, LegalCitation, MultiplyOrder, Rate, RoundingStrategy,
};
