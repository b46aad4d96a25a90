use vstd::prelude::*;

use crate::domains::consumption_tax::policy::ConsumptionTaxPolicy;
use crate::flags::{FlagCode, FlagSet};
use crate::types::date::LegalDate;

verus! {

/// Flags that affect the consumption tax calculation.
#[derive(Debug, Clone, Copy, PartialEq, Eq, Structural, Hash)]
pub enum ConsumptionTaxFlag {
    /// Apply the reduced rate (8%).
    ///
    /// Whether the goods qualify (food and drink other than alcohol and
    /// dining out; subscribed newspapers, from 2019-10-01) is for the caller
    /// to determine.
    ReducedRate,
}

impl FlagCode for ConsumptionTaxFlag {
    open spec fn flag_code(self) -> nat {
        0
    }

    fn code(&self) -> (c: u32) {
        0
    }

    proof fn lemma_code_injective(a: Self, b: Self) {
    }
}

/// The input of the consumption tax calculation.
pub struct ConsumptionTaxContext<P: ConsumptionTaxPolicy> {
    /// The taxable amount (excluding tax), in yen.
    pub amount: u64,
    /// The date the calculation applies to.
    pub target_date: LegalDate,
    /// The flags given.
    pub flags: FlagSet<ConsumptionTaxFlag>,
    /// Rounding and special-rule policy.
    pub policy: P,
}

} // verus!
