use vstd::prelude::*;

use crate::error::{CalculationError, InputError, JLawError};
use crate::text::{decimal, push_decimal};
use crate::types::amount::IntermediateAmount;
use crate::types::rounding::{rounded_ratio, RoundingStrategy};

verus! {

/// The order of multiplication and division when a rate is applied.
///
/// With rounding involved the two orders can give different results, so the
/// order is named explicitly.
#[derive(Debug, Clone, Copy, PartialEq, Eq, Structural)]
pub enum MultiplyOrder {
    /// Multiply by the numerator first, then divide (precision first).
    MultiplyFirst,
    /// Divide by the denominator first, then multiply (avoids overflow).
    DivideFirst,
}

/// A ratio held as an integer fraction, e.g. 5/100 for 5%.
#[derive(Debug, Clone, Copy, PartialEq, Eq, Structural)]
pub struct Rate {
    /// The numerator.
    pub numer: u64,
    /// The denominator; zero is invalid.
    pub denom: u64,
}

/// The whole yen that `base` comes to under the rate `numer / denom`.
pub open spec fn applied_rate(
    base: nat,
    numer: nat,
    denom: nat,
    order: MultiplyOrder,
    rounding: RoundingStrategy,
) -> nat {
    match order {
        MultiplyOrder::MultiplyFirst => rounded_ratio(rounding, base * numer, denom),
        MultiplyOrder::DivideFirst => rounded_ratio(rounding, (base / denom) * numer, 1),
    }
}

/// The overflow step name that [`Rate::apply`] reports.
pub open spec fn rate_apply_step(base: nat, numer: nat) -> Seq<char> {
    "rate_apply: "@ + decimal(base) + " * "@ + decimal(numer)
}

impl Rate {
    /// Applies this rate to the whole part of `amount`.
    ///
    /// Only `amount.whole` takes part; a fractional part of `amount` is
    /// dropped without notice. Finalize the amount first to keep it.
    ///
    /// Errors: a zero denominator gives `InputError::ZeroDenominator`; with
    /// `MultiplyFirst`, a product `whole * numer` beyond `u64` gives
    /// `CalculationError::Overflow`.
    pub fn apply(
        &self,
        amount: &IntermediateAmount,
        order: MultiplyOrder,
        rounding: RoundingStrategy,
    ) -> (r: Result<IntermediateAmount, JLawError>)
        requires
            order == MultiplyOrder::DivideFirst && self.denom != 0 ==> (amount.whole_part()
                / self.denom) * self.numer <= u64::MAX,
        ensures
            self.denom == 0 ==> r matches Err(JLawError::Input(InputError::ZeroDenominator)),
            self.denom != 0 && order == MultiplyOrder::MultiplyFirst && amount.whole_part()
                * self.numer > u64::MAX ==> (r matches Err(
                JLawError::Calculation(CalculationError::Overflow { step }),
            ) && step@ == rate_apply_step(amount.whole_part() as nat, self.numer as nat)),
            r is Ok <==> self.denom != 0 && (order == MultiplyOrder::MultiplyFirst
                ==> amount.whole_part() * self.numer <= u64::MAX),
            r matches Ok(a) ==> (a.whole_part() == applied_rate(
                amount.whole_part() as nat,
                self.numer as nat,
                self.denom as nat,
                order,
                rounding,
            ) && a.numer_part() == 0 && a.denom_part() == 1),
    {
        if self.denom == 0 {
            return Err(JLawError::Input(InputError::ZeroDenominator));
        }
        let base = amount.whole();
        let result_whole = match order {
            MultiplyOrder::MultiplyFirst => {
                let product = match base.checked_mul(self.numer) {
                    Some(p) => p,
                    None => {
                        let mut step = String::from_str("rate_apply: ");
                        push_decimal(&mut step, base);
                        step.append(" * ");
                        push_decimal(&mut step, self.numer);
                        return Err(JLawError::Calculation(CalculationError::Overflow { step }));
                    },
                };
                rounding.apply_ratio(product, self.denom)
            },
            MultiplyOrder::DivideFirst => rounding.apply_ratio(base / self.denom * self.numer, 1),
        };
        Ok(IntermediateAmount::from_exact(result_whole))
    }
}

} // verus!
