use vstd::prelude::*;

use crate::domains::withholding_tax::policy::WithholdingTaxPolicy;
use crate::error::{input_fails_as, Failure, InputError};
use crate::flags::{FlagCode, FlagSet};
use crate::text::{decimal, join3, str_eq, with_decimal};
use crate::types::date::LegalDate;

verus! {

/// The withholding category of a fee (Income Tax Act, Article 204,
/// paragraph 1).
#[derive(Debug, Clone, Copy, PartialEq, Eq, Structural, Hash)]
pub enum WithholdingTaxCategory {
    /// Manuscript and lecture fees (item 1).
    ManuscriptAndLecture,
    /// Fees of lawyers, tax accountants, certified public accountants and
    /// the like (item 2).
    ProfessionalFee,
    /// A lump sum paid on a contract to provide services (item 7).
    ExclusiveContractFee,
}

/// The stable text code of a category.
pub open spec fn category_name(c: WithholdingTaxCategory) -> Seq<char> {
    match c {
        WithholdingTaxCategory::ManuscriptAndLecture => "manuscript_and_lecture"@,
        WithholdingTaxCategory::ProfessionalFee => "professional_fee"@,
        WithholdingTaxCategory::ExclusiveContractFee => "exclusive_contract_fee"@,
    }
}

/// The integer code of a category in the C interface.
pub open spec fn category_ffi_code(c: WithholdingTaxCategory) -> u32 {
    match c {
        WithholdingTaxCategory::ManuscriptAndLecture => 1,
        WithholdingTaxCategory::ProfessionalFee => 2,
        WithholdingTaxCategory::ExclusiveContractFee => 3,
    }
}

impl WithholdingTaxCategory {
    /// The stable text code, for storage and bindings.
    pub fn as_str(self) -> (s: &'static str)
        ensures
            s@ == category_name(self),
    {
        match self {
            WithholdingTaxCategory::ManuscriptAndLecture => "manuscript_and_lecture",
            WithholdingTaxCategory::ProfessionalFee => "professional_fee",
            WithholdingTaxCategory::ExclusiveContractFee => "exclusive_contract_fee",
        }
    }

    /// The integer code of the C interface.
    pub fn ffi_code(self) -> (r: u32)
        ensures
            r == category_ffi_code(self),
    {
        match self {
            WithholdingTaxCategory::ManuscriptAndLecture => 1,
            WithholdingTaxCategory::ProfessionalFee => 2,
            WithholdingTaxCategory::ExclusiveContractFee => 3,
        }
    }

    /// The category of a C interface code.
    pub fn from_ffi_code(code: u32) -> (r: Result<Self, InputError>)
        ensures
            r matches Ok(c) ==> category_ffi_code(c) == code,
            1 <= code <= 3 <==> r is Ok,
            !(1 <= code <= 3) ==> input_fails_as(
                r,
                Failure::InvalidWithholdingInput(
                    "category"@,
                    "未知のカテゴリコードです: "@ + decimal(code as nat),
                ),
            ),
    {
        match code {
            1 => Ok(WithholdingTaxCategory::ManuscriptAndLecture),
            2 => Ok(WithholdingTaxCategory::ProfessionalFee),
            3 => Ok(WithholdingTaxCategory::ExclusiveContractFee),
            _ => {
                proof {
                    reveal_strlit("");
                }
                Err(
                InputError::InvalidWithholdingInput {
                    field: String::from_str("category"),
                    reason: with_decimal("未知のカテゴリコードです: ", code as u64, ""),
                },
            )
            },
        }
    }

    /// The category named by a stable text code.
    pub fn parse_code(s: &str) -> (r: Result<Self, InputError>)
        ensures
            r matches Ok(c) ==> category_name(c) == s@,
            (exists|c: WithholdingTaxCategory| category_name(c) == s@) <==> r is Ok,
            (forall|c: WithholdingTaxCategory| category_name(c) != s@) ==> input_fails_as(
                r,
                Failure::InvalidWithholdingInput("category"@, "未知のカテゴリです: "@ + s@),
            ),
    {
        proof {
            reveal_strlit("manuscript_and_lecture");
            reveal_strlit("professional_fee");
            reveal_strlit("exclusive_contract_fee");
        }
        if str_eq(s, "manuscript_and_lecture") {
            proof {
                assert(category_name(WithholdingTaxCategory::ManuscriptAndLecture) == s@);
            }
            Ok(WithholdingTaxCategory::ManuscriptAndLecture)
        } else if str_eq(s, "professional_fee") {
            proof {
                assert(category_name(WithholdingTaxCategory::ProfessionalFee) == s@);
            }
            Ok(WithholdingTaxCategory::ProfessionalFee)
        } else if str_eq(s, "exclusive_contract_fee") {
            proof {
                assert(category_name(WithholdingTaxCategory::ExclusiveContractFee) == s@);
            }
            Ok(WithholdingTaxCategory::ExclusiveContractFee)
        } else {
            let reason = join3("未知のカテゴリです: ", s, "");
            proof {
                reveal_strlit("");
                assert(reason@ =~= "未知のカテゴリです: "@ + s@);
                assert forall|c: WithholdingTaxCategory| category_name(c) != s@ by {
                    match c {
                        WithholdingTaxCategory::ManuscriptAndLecture => {},
                        WithholdingTaxCategory::ProfessionalFee => {},
                        WithholdingTaxCategory::ExclusiveContractFee => {},
                    }
                }
            }
            Err(InputError::InvalidWithholdingInput { field: String::from_str("category"), reason })
        }
    }
}

/// Distinct categories have distinct text codes and distinct integer codes,
/// and every integer code lies in 1 to 3; so reading back the code of a
/// category, by [`WithholdingTaxCategory::parse_code`] or
/// [`WithholdingTaxCategory::from_ffi_code`], gives that category.
pub proof fn lemma_category_codes_identify(a: WithholdingTaxCategory, b: WithholdingTaxCategory)
    ensures
        category_name(a) == category_name(b) ==> a == b,
        category_ffi_code(a) == category_ffi_code(b) ==> a == b,
        1 <= category_ffi_code(a) <= 3,
{
    reveal_strlit("manuscript_and_lecture");
    reveal_strlit("professional_fee");
    reveal_strlit("exclusive_contract_fee");
    if category_name(a) == category_name(b) && a != b {
        assert(category_name(a).len() != category_name(b).len() || category_name(a)[0]
            != category_name(b)[0]);
    }
}

impl From<WithholdingTaxCategory> for u32 {
    fn from(value: WithholdingTaxCategory) -> (r: u32) {
        value.ffi_code()
    }
}

impl vstd::std_specs::convert::FromSpecImpl<WithholdingTaxCategory> for u32 {
    open spec fn obeys_from_spec() -> bool {
        true
    }

    open spec fn from_spec(value: WithholdingTaxCategory) -> u32 {
        category_ffi_code(value)
    }
}

impl std::str::FromStr for WithholdingTaxCategory {
    type Err = InputError;

    /// The category named by a stable text code, as
    /// [`WithholdingTaxCategory::parse_code`] reads it.
    fn from_str(s: &str) -> (r: Result<Self, InputError>)
        ensures
            r matches Ok(c) ==> category_name(c) == s@,
            (exists|c: WithholdingTaxCategory| category_name(c) == s@) <==> r is Ok,
            (forall|c: WithholdingTaxCategory| category_name(c) != s@) ==> input_fails_as(
                r,
                Failure::InvalidWithholdingInput("category"@, "未知のカテゴリです: "@ + s@),
            ),
    {
        Self::parse_code(s)
    }
}

/// Flags that affect the withholding tax calculation.
#[derive(Debug, Clone, Copy, PartialEq, Eq, Structural, Hash)]
pub enum WithholdingTaxFlag {
    /// The payment is a prize or reward for a work submitted to a contest.
    ///
    /// Such a manuscript or lecture payment of at most 50,000 yen at a time
    /// needs no withholding (Article 204, paragraph 1, item 1). Whether the
    /// payment is such a prize is for the caller to determine.
    IsSubmissionPrize,
}

impl FlagCode for WithholdingTaxFlag {
    open spec fn flag_code(self) -> nat {
        0
    }

    fn code(&self) -> (c: u32) {
        0
    }

    proof fn lemma_code_injective(a: Self, b: Self) {
    }
}

/// The input of the withholding tax calculation on a fee
/// (Income Tax Act, Article 204, paragraph 1).
pub struct WithholdingTaxContext<P: WithholdingTaxPolicy> {
    /// The total actually paid, in yen; the total even when the invoice
    /// states the consumption tax separately.
    pub payment_amount: u64,
    /// The consumption tax stated separately on the invoice, in yen; zero
    /// when it is not stated separately.
    pub separated_consumption_tax_amount: u64,
    /// The category of the fee.
    pub category: WithholdingTaxCategory,
    /// The date of the calculation.
    pub target_date: LegalDate,
    /// The flags given.
    pub flags: FlagSet<WithholdingTaxFlag>,
    /// Rounding and special-rule policy.
    pub policy: P,
}

} // verus!
