use vstd::prelude::*;

verus! {

/// How a fraction is turned into a whole number of yen.
///
/// Statutory calculations must name the rounding they use, so it is carried
/// as a value of its own and applied in integer arithmetic.
#[derive(Debug, Clone, Copy, PartialEq, Eq, Structural)]
pub enum RoundingStrategy {
    /// Round toward zero (floor); the most common rule in statutes.
    Floor,
    /// Round half up.
    HalfUp,
    /// Round up (ceiling).
    Ceil,
}

/// The whole number that `numer / denom` rounds to under `rounding`.
pub open spec fn rounded_ratio(rounding: RoundingStrategy, numer: nat, denom: nat) -> nat
    recommends
        denom > 0,
{
    match rounding {
        RoundingStrategy::Floor => numer / denom,
        RoundingStrategy::Ceil => ((numer + denom - 1) as nat) / denom,
        RoundingStrategy::HalfUp => (numer + denom / 2) / denom,
    }
}

/// Each rounding is the floor quotient, raised by one exactly when the
/// remainder calls for it; the raised value never exceeds `numer` when it is
/// reached.
proof fn lemma_ratio_parts(rounding: RoundingStrategy, numer: nat, denom: nat)
    requires
        denom > 0,
    ensures
        ({
            let q = numer / denom;
            let rem = numer % denom;
            &&& rounding == RoundingStrategy::Floor ==> rounded_ratio(rounding, numer, denom) == q
            &&& rounding == RoundingStrategy::Ceil ==> rounded_ratio(rounding, numer, denom) == (
            if rem == 0 {
                q
            } else {
                q + 1
            })
            &&& rounding == RoundingStrategy::HalfUp ==> rounded_ratio(rounding, numer, denom) == (
            if rem >= denom - denom / 2 {
                q + 1
            } else {
                q
            })
            &&& rem > 0 ==> q + 1 <= numer
            &&& (denom > 1 && rem >= denom - denom / 2) ==> q + 1 <= numer
        }),
{
    let n = numer as int;
    let d = denom as int;
    let q = n / d;
    let rem = n % d;
    let h = d / 2;
    vstd::arithmetic::div_mod::lemma_fundamental_div_mod(n, d);
    assert(d * (q + 1) == d * q + d) by (nonlinear_arith);
    if rem > 0 {
        vstd::arithmetic::div_mod::lemma_fundamental_div_mod_converse_div(n + d - 1, d, q + 1, rem - 1);
    } else {
        vstd::arithmetic::div_mod::lemma_fundamental_div_mod_converse_div(n + d - 1, d, q, d - 1);
    }
    if rem >= d - h {
        vstd::arithmetic::div_mod::lemma_fundamental_div_mod_converse_div(n + h, d, q + 1, rem + h - d);
    } else {
        vstd::arithmetic::div_mod::lemma_fundamental_div_mod_converse_div(n + h, d, q, rem + h);
    }
    if rem > 0 || (d > 1 && rem >= d - h) {
        if d > 1 {
            assert(q + 1 <= n) by (nonlinear_arith)
                requires
                    n == d * q + rem,
                    rem >= 1,
                    d >= 2,
                    q >= 0,
            ;
        }
    }
}

/// A zero numerator rounds to zero under every strategy.
pub proof fn lemma_zero_rounds_to_zero(rounding: RoundingStrategy, denom: nat)
    requires
        denom > 0,
    ensures
        rounded_ratio(rounding, 0, denom) == 0,
{
    lemma_ratio_parts(rounding, 0, denom);
}

/// What each rounding means: `Floor` is the greatest whole number not
/// above `numer / denom`, `Ceil` the least not below it, and `HalfUp` the
/// nearest, a tie going up.
pub proof fn lemma_rounding_meaning(numer: nat, denom: nat)
    requires
        denom > 0,
    ensures
        ({
            let n = numer as int;
            let d = denom as int;
            let f = rounded_ratio(RoundingStrategy::Floor, numer, denom) as int;
            let c = rounded_ratio(RoundingStrategy::Ceil, numer, denom) as int;
            let h = rounded_ratio(RoundingStrategy::HalfUp, numer, denom) as int;
            &&& d * f <= n < d * (f + 1)
            &&& d * (c - 1) < n <= d * c
            &&& d * (2 * h - 1) <= 2 * n < d * (2 * h + 1)
        }),
{
    let n = numer as int;
    let d = denom as int;
    let q = n / d;
    let rem = n % d;
    let half = d / 2;
    vstd::arithmetic::div_mod::lemma_fundamental_div_mod(n, d);
    vstd::arithmetic::div_mod::lemma_fundamental_div_mod(d, 2);
    lemma_ratio_parts(RoundingStrategy::Floor, numer, denom);
    lemma_ratio_parts(RoundingStrategy::Ceil, numer, denom);
    lemma_ratio_parts(RoundingStrategy::HalfUp, numer, denom);
    assert(d * (q + 1) == d * q + d) by (nonlinear_arith);
    assert(d * (q - 1) == d * q - d) by (nonlinear_arith);
    assert(d * (2 * q - 1) == 2 * (d * q) - d) by (nonlinear_arith);
    assert(d * (2 * q + 1) == 2 * (d * q) + d) by (nonlinear_arith);
    assert(d * (2 * (q + 1) - 1) == 2 * (d * q) + d) by (nonlinear_arith);
    assert(d * (2 * (q + 1) + 1) == 2 * (d * q) + 3 * d) by (nonlinear_arith);
}

/// Every rounding keeps the order of the numerators: a larger numerator
/// never rounds to less.
pub proof fn lemma_rounding_monotone(rounding: RoundingStrategy, n1: nat, n2: nat, denom: nat)
    requires
        n1 <= n2,
        denom > 0,
    ensures
        rounded_ratio(rounding, n1, denom) <= rounded_ratio(rounding, n2, denom),
{
    let d = denom as int;
    match rounding {
        RoundingStrategy::Floor => {
            vstd::arithmetic::div_mod::lemma_div_is_ordered(n1 as int, n2 as int, d);
        },
        RoundingStrategy::Ceil => {
            vstd::arithmetic::div_mod::lemma_div_is_ordered(n1 + d - 1, n2 + d - 1, d);
        },
        RoundingStrategy::HalfUp => {
            vstd::arithmetic::div_mod::lemma_div_is_ordered(n1 + d / 2, n2 + d / 2, d);
        },
    }
}

impl RoundingStrategy {
    /// Rounds `numer / denom` to a whole number, in integer arithmetic only.
    pub fn apply_ratio(self, numer: u64, denom: u64) -> (r: u64)
        requires
            denom != 0,
        ensures
            r == rounded_ratio(self, numer as nat, denom as nat),
    {
        let q = numer / denom;
        let rem = numer % denom;
        proof {
            lemma_ratio_parts(self, numer as nat, denom as nat);
        }
        match self {
            RoundingStrategy::Floor => q,
            RoundingStrategy::Ceil => {
                if rem == 0 {
                    q
                } else {
                    q + 1
                }
            },
            RoundingStrategy::HalfUp => {
                if rem >= denom - denom / 2 {
                    q + 1
                } else {
                    q
                }
            },
        }
    }
}

} // verus!
