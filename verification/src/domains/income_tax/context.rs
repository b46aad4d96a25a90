use vstd::prelude::*;

use crate::domains::income_tax::policy::IncomeTaxPolicy;
use crate::flags::{FlagCode, FlagSet};

verus! {

/// Legal flags of the income tax calculation.
///
/// Whether each flag holds in fact is for the caller to determine.
#[derive(Debug, Clone, Copy, PartialEq, Eq, Structural, Hash)]
pub enum IncomeTaxFlag {
    /// Apply the special income tax for reconstruction.
    ///
    /// Applies to the income tax of each year from 2013 to 2037 (Act on
    /// Securing Financial Resources for Reconstruction, Article 13).
    ApplyReconstructionTax,
}

impl FlagCode for IncomeTaxFlag {
    open spec fn flag_code(self) -> nat {
        0
    }

    fn code(&self) -> (c: u32) {
        0
    }

    proof fn lemma_code_injective(a: Self, b: Self) {
    }
}

/// The input of the income tax calculation.
///
/// Legal basis: Income Tax Act, Article 89, paragraph 1.
pub struct IncomeTaxContext<P: IncomeTaxPolicy> {
    /// Taxable income, in yen: income after all deductions, with the part
    /// below 1,000 yen already dropped.
    pub taxable_income: u64,
    /// The reference date `(year, month, day)` of the tax year.
    pub target_date: (u16, u8, u8),
    /// The legal flags given.
    pub flags: FlagSet<IncomeTaxFlag>,
    /// The calculation policy.
    pub policy: P,
}

} // verus!
