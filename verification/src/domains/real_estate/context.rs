use vstd::prelude::*;

use crate::domains::real_estate::policy::RealEstatePolicy;
use crate::flags::{FlagCode, FlagSet};
use crate::types::date::LegalDate;

verus! {

/// Legal flags of a real estate transaction.
///
/// Whether each flag holds in fact is for the caller to determine.
#[derive(Debug, Clone, Copy, PartialEq, Eq, Structural, Hash)]
pub enum RealEstateFlag {
    /// The special rule for low-cost vacant houses is claimed
    /// (Building Lots and Buildings Transaction Business Act, Article 46, and
    /// the ministry notice in force from 2018-01-01, amended 2024-07-01).
    IsLowCostVacantHouse,
    /// The fee is calculated for the seller's side.
    ///
    /// The special rule of 2018-01-01 to 2024-06-30 applies to sellers only.
    IsSeller,
    /// A commercial property.
    IsCommercialProperty,
    /// Fees are received from both seller and buyer.
    IsDualSide,
}

impl FlagCode for RealEstateFlag {
    open spec fn flag_code(self) -> nat {
        match self {
            RealEstateFlag::IsLowCostVacantHouse => 0,
            RealEstateFlag::IsSeller => 1,
            RealEstateFlag::IsCommercialProperty => 2,
            RealEstateFlag::IsDualSide => 3,
        }
    }

    fn code(&self) -> (c: u32) {
        match self {
            RealEstateFlag::IsLowCostVacantHouse => 0,
            RealEstateFlag::IsSeller => 1,
            RealEstateFlag::IsCommercialProperty => 2,
            RealEstateFlag::IsDualSide => 3,
        }
    }

    proof fn lemma_code_injective(a: Self, b: Self) {
    }
}

/// The input of the brokerage fee calculation.
///
/// Legal basis: Building Lots and Buildings Transaction Business Act,
/// Article 46, paragraph 1.
pub struct RealEstateContext<P: RealEstatePolicy> {
    /// The sale price, in yen.
    pub price: u64,
    /// The contract date, which selects the notice in force.
    pub target_date: LegalDate,
    /// The legal flags given.
    pub flags: FlagSet<RealEstateFlag>,
    /// The calculation policy.
    pub policy: P,
}

} // verus!
