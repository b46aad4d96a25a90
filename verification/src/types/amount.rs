use vstd::prelude::*;

use crate::error::InputError;
use crate::types::rounding::{rounded_ratio, RoundingStrategy};

verus! {

/// A final amount in whole yen.
///
/// Used only for settled values handed back to the caller (totals, tax
/// amounts); calculations in progress use [`IntermediateAmount`].
#[derive(Debug, Clone, Copy, PartialEq, Eq, Structural, PartialOrd, Ord)]
pub struct FinalAmount(u64);

impl View for FinalAmount {
    type V = u64;

    closed spec fn view(&self) -> u64 {
        self.0
    }
}

impl FinalAmount {
    /// An amount of `yen` yen.
    pub fn new(yen: u64) -> (r: Self)
        ensures
            r@ == yen,
    {
        FinalAmount(yen)
    }

    /// The amount in yen.
    pub fn as_yen(self) -> (r: u64)
        ensures
            r == self@,
    {
        self.0
    }

    /// The text `{yen}円`.
    pub fn display_text(self) -> (s: String)
        ensures
            s@ == crate::text::decimal(self@ as nat) + "円"@,
    {
        let mut s = crate::text::decimal_string(self.0);
        s.append("円");
        s
    }

    /// Two amounts are the same value exactly when they hold the same yen.
    pub proof fn lemma_view_injective(a: Self, b: Self)
        ensures
            a@ == b@ <==> a == b,
    {
    }
}

/// An amount in progress, held as the fraction `whole + numer / denom`.
///
/// For example `100 + 1/3` is `IntermediateAmount { whole: 100, numer: 1,
/// denom: 3 }`. Use [`IntermediateAmount::finalize`] to round it to yen.
#[derive(Debug, PartialEq, Eq, Structural)]
pub struct IntermediateAmount {
    /// The whole part, in yen.
    pub(crate) whole: u64,
    /// The numerator of the fractional part.
    pub(crate) numer: u64,
    /// The denominator of the fractional part; never zero.
    pub(crate) denom: u64,
}

impl IntermediateAmount {
    #[verifier::type_invariant]
    spec fn denominator_is_positive(self) -> bool {
        self.denom > 0
    }

    /// The whole part.
    pub closed spec fn whole_part(self) -> u64 {
        self.whole
    }

    /// The numerator of the fractional part.
    pub closed spec fn numer_part(self) -> u64 {
        self.numer
    }

    /// The denominator of the fractional part.
    pub closed spec fn denom_part(self) -> u64 {
        self.denom
    }

    /// The rational value `whole + numer / denom`, scaled by `denom`.
    pub open spec fn scaled_value(self) -> int {
        self.whole_part() * self.denom_part() + self.numer_part()
    }

    /// The exact amount `yen` with no fraction.
    pub fn from_exact(yen: u64) -> (r: Self)
        ensures
            r.whole_part() == yen,
            r.numer_part() == 0,
            r.denom_part() == 1,
    {
        IntermediateAmount { whole: yen, numer: 0, denom: 1 }
    }

    /// The amount `whole + numer / denom`; a zero `denom` is refused.
    pub fn try_new(whole: u64, numer: u64, denom: u64) -> (r: Result<Self, InputError>)
        ensures
            denom == 0 <==> r matches Err(InputError::ZeroDenominator),
            denom != 0 <==> r is Ok,
            r matches Ok(a) ==> a.whole_part() == whole && a.numer_part() == numer
                && a.denom_part() == denom,
    {
        if denom == 0 {
            return Err(InputError::ZeroDenominator);
        }
        Ok(IntermediateAmount { whole, numer, denom })
    }

    /// The final amount: the whole part plus the fraction rounded by
    /// `rounding`.
    pub fn finalize(&self, rounding: RoundingStrategy) -> (r: Result<FinalAmount, InputError>)
        requires
            self.whole_part() + rounded_ratio(rounding, self.numer_part() as nat, self.denom_part() as nat) <= u64::MAX,
        ensures
            r matches Ok(f) && f@ == self.whole_part() + rounded_ratio(
                rounding,
                self.numer_part() as nat,
                self.denom_part() as nat,
            ),
    {
        proof {
            use_type_invariant(self);
        }
        let frac = if self.numer == 0 {
            0
        } else {
            rounding.apply_ratio(self.numer, self.denom)
        };
        proof {
            if self.numer == 0 {
                crate::types::rounding::lemma_zero_rounds_to_zero(rounding, self.denom as nat);
            }
        }
        Ok(FinalAmount::new(self.whole + frac))
    }

    /// The whole part, in yen.
    pub fn whole(&self) -> (r: u64)
        ensures
            r == self.whole_part(),
    {
        self.whole
    }

    /// The numerator of the fractional part.
    pub fn numer(&self) -> (r: u64)
        ensures
            r == self.numer_part(),
    {
        self.numer
    }

    /// The denominator of the fractional part.
    pub fn denom(&self) -> (r: u64)
        ensures
            r == self.denom_part(),
            r > 0,
    {
        proof {
            use_type_invariant(self);
        }
        self.denom
    }

    /// The saturated amount returned when a sum does not fit in `u64`.
    pub open spec fn saturated(r: Self) -> bool {
        r.whole_part() == u64::MAX && r.numer_part() == 0 && r.denom_part() == 1
    }

    /// Whether `self + other` can be formed without overflow.
    pub open spec fn sum_fits(self, other: Self) -> bool {
        let d = self.denom_part() * other.denom_part();
        let n = self.numer_part() * other.denom_part() + other.numer_part() * self.denom_part();
        &&& d <= u64::MAX
        &&& self.numer_part() * other.denom_part() <= u64::MAX
        &&& other.numer_part() * self.denom_part() <= u64::MAX
        &&& n <= u64::MAX
        &&& self.whole_part() + other.whole_part() + n / d <= u64::MAX
    }

    /// Adds two amounts over the common denominator `self.denom * other.denom`,
    /// carrying whole yen out of the fraction.
    ///
    /// When any step would overflow `u64`, the result is the saturated
    /// amount `u64::MAX + 0/1` instead of a panic.
    pub fn add(self, other: &IntermediateAmount) -> (r: IntermediateAmount)
        ensures
            self.sum_fits(*other) ==> {
                let d = self.denom_part() * other.denom_part();
                let n = self.numer_part() * other.denom_part() + other.numer_part()
                    * self.denom_part();
                &&& r.denom_part() == d
                &&& r.numer_part() == n % d
                &&& r.whole_part() == self.whole_part() + other.whole_part() + n / d
            },
            !self.sum_fits(*other) ==> Self::saturated(r),
    {
        proof {
            use_type_invariant(&self);
            use_type_invariant(other);
        }
        let saturated = IntermediateAmount { whole: u64::MAX, numer: 0, denom: 1 };
        let new_denom = match self.denom.checked_mul(other.denom) {
            Some(d) => d,
            None => return saturated,
        };
        proof {
            vstd::arithmetic::mul::lemma_mul_strictly_positive(self.denom as int, other.denom as int);
        }
        let lhs = match self.numer.checked_mul(other.denom) {
            Some(v) => v,
            None => return saturated,
        };
        let rhs = match other.numer.checked_mul(self.denom) {
            Some(v) => v,
            None => return saturated,
        };
        let new_numer = match lhs.checked_add(rhs) {
            Some(v) => v,
            None => return saturated,
        };
        let carry = new_numer / new_denom;
        let rem = new_numer % new_denom;
        let whole = match self.whole.checked_add(other.whole) {
            Some(w) => match w.checked_add(carry) {
                Some(w2) => w2,
                None => return saturated,
            },
            None => return saturated,
        };
        IntermediateAmount { whole, numer: rem, denom: new_denom }
    }
}

impl Clone for IntermediateAmount {
    fn clone(&self) -> (r: Self)
        ensures
            r == *self,
    {
        proof {
            use_type_invariant(self);
        }
        IntermediateAmount { whole: self.whole, numer: self.numer, denom: self.denom }
    }
}

/// A sum that fits keeps its exact value: the scaled value of the sum is the
/// sum of the operands' values over the common denominator.
pub proof fn lemma_add_is_exact(a: IntermediateAmount, b: IntermediateAmount, r: IntermediateAmount)
    requires
        a.sum_fits(b),
        a.denom_part() > 0,
        b.denom_part() > 0,
        r.denom_part() == a.denom_part() * b.denom_part(),
        r.numer_part() == (a.numer_part() * b.denom_part() + b.numer_part() * a.denom_part()) % (
        a.denom_part() * b.denom_part()),
        r.whole_part() == a.whole_part() + b.whole_part() + (a.numer_part() * b.denom_part()
            + b.numer_part() * a.denom_part()) / (a.denom_part() * b.denom_part()),
    ensures
        r.scaled_value() == a.scaled_value() * b.denom_part() + b.scaled_value() * a.denom_part(),
{
    let d = a.denom_part() * b.denom_part();
    let n = a.numer_part() * b.denom_part() + b.numer_part() * a.denom_part();
    vstd::arithmetic::mul::lemma_mul_strictly_positive(a.denom_part() as int, b.denom_part() as int);
    vstd::arithmetic::div_mod::lemma_fundamental_div_mod(n as int, d as int);
    let wa = a.whole_part() as int;
    let wb = b.whole_part() as int;
    let da = a.denom_part() as int;
    let db = b.denom_part() as int;
    let q = n as int / d as int;
    assert(r.scaled_value() == (wa + wb + q) * d + n % d);
    assert((wa + wb + q) * (da * db) == wa * da * db + wb * db * da + q * (da * db)) by (nonlinear_arith);
    assert(a.scaled_value() * db + b.scaled_value() * da == wa * da * db + a.numer_part() * db + wb * db
        * da + b.numer_part() * da) by (nonlinear_arith)
        requires
            a.scaled_value() == wa * da + a.numer_part(),
            b.scaled_value() == wb * db + b.numer_part(),
    ;
    assert(d * q + n % d == n);
    assert(q * (da * db) == d * q) by (nonlinear_arith)
        requires
            d == da * db,
    ;
}

} // verus!
