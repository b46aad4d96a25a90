use vstd::prelude::*;

use crate::domains::stamp_tax::policy::StampTaxPolicy;
use crate::error::{input_fails_as, Failure, InputError};
use crate::flags::{FlagCode, FlagSet};
use crate::text::{decimal, hexadecimal, join3, push_hex, str_eq, with_decimal};
use crate::types::date::LegalDate;

verus! {

/// The document code of the stamp tax: one code per line of the tax table
/// in Schedule 1 where the tax differs.
///
/// Legal basis: Stamp Tax Act, Schedule 1.
#[derive(Debug, Clone, Copy, PartialEq, Eq, Structural, Hash, PartialOrd, Ord)]
pub enum StampTaxDocumentCode {
    Article1RealEstateTransfer,
    Article1OtherTransfer,
    Article1LandLeaseOrSurfaceRight,
    Article1ConsumptionLoan,
    Article1Transportation,
    Article2ConstructionWork,
    Article2GeneralContract,
    Article3BillAmountTable,
    Article3BillSpecialFlat200,
    Article4SecurityCertificate,
    Article5MergerOrSplit,
    Article6ArticlesOfIncorporation,
    Article7ContinuingTransactionBasic,
    Article8DepositCertificate,
    Article9TransportCertificate,
    Article10InsuranceCertificate,
    Article11LetterOfCredit,
    Article12TrustContract,
    Article13DebtGuarantee,
    Article14DepositContract,
    Article15AssignmentOrAssumption,
    Article16DividendReceipt,
    Article17SalesReceipt,
    Article17OtherReceipt,
    Article18Passbook,
    Article19MiscPassbook,
    Article20SealBook,
}

/// The stable text code of a document code.
pub open spec fn document_code_name(c: StampTaxDocumentCode) -> Seq<char> {
    match c {
        StampTaxDocumentCode::Article1RealEstateTransfer => "article1_real_estate_transfer"@,
        StampTaxDocumentCode::Article1OtherTransfer => "article1_other_transfer"@,
        StampTaxDocumentCode::Article1LandLeaseOrSurfaceRight => "article1_land_lease_or_surface_right"@,
        StampTaxDocumentCode::Article1ConsumptionLoan => "article1_consumption_loan"@,
        StampTaxDocumentCode::Article1Transportation => "article1_transportation"@,
        StampTaxDocumentCode::Article2ConstructionWork => "article2_construction_work"@,
        StampTaxDocumentCode::Article2GeneralContract => "article2_general_contract"@,
        StampTaxDocumentCode::Article3BillAmountTable => "article3_bill_amount_table"@,
        StampTaxDocumentCode::Article3BillSpecialFlat200 => "article3_bill_special_flat_200"@,
        StampTaxDocumentCode::Article4SecurityCertificate => "article4_security_certificate"@,
        StampTaxDocumentCode::Article5MergerOrSplit => "article5_merger_or_split"@,
        StampTaxDocumentCode::Article6ArticlesOfIncorporation => "article6_articles_of_incorporation"@,
        StampTaxDocumentCode::Article7ContinuingTransactionBasic => "article7_continuing_transaction_basic"@,
        StampTaxDocumentCode::Article8DepositCertificate => "article8_deposit_certificate"@,
        StampTaxDocumentCode::Article9TransportCertificate => "article9_transport_certificate"@,
        StampTaxDocumentCode::Article10InsuranceCertificate => "article10_insurance_certificate"@,
        StampTaxDocumentCode::Article11LetterOfCredit => "article11_letter_of_credit"@,
        StampTaxDocumentCode::Article12TrustContract => "article12_trust_contract"@,
        StampTaxDocumentCode::Article13DebtGuarantee => "article13_debt_guarantee"@,
        StampTaxDocumentCode::Article14DepositContract => "article14_deposit_contract"@,
        StampTaxDocumentCode::Article15AssignmentOrAssumption => "article15_assignment_or_assumption"@,
        StampTaxDocumentCode::Article16DividendReceipt => "article16_dividend_receipt"@,
        StampTaxDocumentCode::Article17SalesReceipt => "article17_sales_receipt"@,
        StampTaxDocumentCode::Article17OtherReceipt => "article17_other_receipt"@,
        StampTaxDocumentCode::Article18Passbook => "article18_passbook"@,
        StampTaxDocumentCode::Article19MiscPassbook => "article19_misc_passbook"@,
        StampTaxDocumentCode::Article20SealBook => "article20_seal_book"@,
    }
}

/// The integer code of a document code in the C interface.
pub open spec fn document_ffi_code(c: StampTaxDocumentCode) -> u32 {
    match c {
        StampTaxDocumentCode::Article1RealEstateTransfer => 1,
        StampTaxDocumentCode::Article1OtherTransfer => 2,
        StampTaxDocumentCode::Article1LandLeaseOrSurfaceRight => 3,
        StampTaxDocumentCode::Article1ConsumptionLoan => 4,
        StampTaxDocumentCode::Article1Transportation => 5,
        StampTaxDocumentCode::Article2ConstructionWork => 6,
        StampTaxDocumentCode::Article2GeneralContract => 7,
        StampTaxDocumentCode::Article3BillAmountTable => 8,
        StampTaxDocumentCode::Article3BillSpecialFlat200 => 9,
        StampTaxDocumentCode::Article4SecurityCertificate => 10,
        StampTaxDocumentCode::Article5MergerOrSplit => 11,
        StampTaxDocumentCode::Article6ArticlesOfIncorporation => 12,
        StampTaxDocumentCode::Article7ContinuingTransactionBasic => 13,
        StampTaxDocumentCode::Article8DepositCertificate => 14,
        StampTaxDocumentCode::Article9TransportCertificate => 15,
        StampTaxDocumentCode::Article10InsuranceCertificate => 16,
        StampTaxDocumentCode::Article11LetterOfCredit => 17,
        StampTaxDocumentCode::Article12TrustContract => 18,
        StampTaxDocumentCode::Article13DebtGuarantee => 19,
        StampTaxDocumentCode::Article14DepositContract => 20,
        StampTaxDocumentCode::Article15AssignmentOrAssumption => 21,
        StampTaxDocumentCode::Article16DividendReceipt => 22,
        StampTaxDocumentCode::Article17SalesReceipt => 23,
        StampTaxDocumentCode::Article17OtherReceipt => 24,
        StampTaxDocumentCode::Article18Passbook => 25,
        StampTaxDocumentCode::Article19MiscPassbook => 26,
        StampTaxDocumentCode::Article20SealBook => 27,
    }
}

impl StampTaxDocumentCode {
    /// The stable text code, for storage and external interfaces.
    pub fn as_str(self) -> (s: &'static str)
        ensures
            s@ == document_code_name(self),
    {
        match self {
            StampTaxDocumentCode::Article1RealEstateTransfer => "article1_real_estate_transfer",
            StampTaxDocumentCode::Article1OtherTransfer => "article1_other_transfer",
            StampTaxDocumentCode::Article1LandLeaseOrSurfaceRight => "article1_land_lease_or_surface_right",
            StampTaxDocumentCode::Article1ConsumptionLoan => "article1_consumption_loan",
            StampTaxDocumentCode::Article1Transportation => "article1_transportation",
            StampTaxDocumentCode::Article2ConstructionWork => "article2_construction_work",
            StampTaxDocumentCode::Article2GeneralContract => "article2_general_contract",
            StampTaxDocumentCode::Article3BillAmountTable => "article3_bill_amount_table",
            StampTaxDocumentCode::Article3BillSpecialFlat200 => "article3_bill_special_flat_200",
            StampTaxDocumentCode::Article4SecurityCertificate => "article4_security_certificate",
            StampTaxDocumentCode::Article5MergerOrSplit => "article5_merger_or_split",
            StampTaxDocumentCode::Article6ArticlesOfIncorporation => "article6_articles_of_incorporation",
            StampTaxDocumentCode::Article7ContinuingTransactionBasic => "article7_continuing_transaction_basic",
            StampTaxDocumentCode::Article8DepositCertificate => "article8_deposit_certificate",
            StampTaxDocumentCode::Article9TransportCertificate => "article9_transport_certificate",
            StampTaxDocumentCode::Article10InsuranceCertificate => "article10_insurance_certificate",
            StampTaxDocumentCode::Article11LetterOfCredit => "article11_letter_of_credit",
            StampTaxDocumentCode::Article12TrustContract => "article12_trust_contract",
            StampTaxDocumentCode::Article13DebtGuarantee => "article13_debt_guarantee",
            StampTaxDocumentCode::Article14DepositContract => "article14_deposit_contract",
            StampTaxDocumentCode::Article15AssignmentOrAssumption => "article15_assignment_or_assumption",
            StampTaxDocumentCode::Article16DividendReceipt => "article16_dividend_receipt",
            StampTaxDocumentCode::Article17SalesReceipt => "article17_sales_receipt",
            StampTaxDocumentCode::Article17OtherReceipt => "article17_other_receipt",
            StampTaxDocumentCode::Article18Passbook => "article18_passbook",
            StampTaxDocumentCode::Article19MiscPassbook => "article19_misc_passbook",
            StampTaxDocumentCode::Article20SealBook => "article20_seal_book",
        }
    }

    /// The integer code of the C interface.
    pub fn ffi_code(self) -> (r: u32)
        ensures
            r == document_ffi_code(self),
    {
        match self {
            StampTaxDocumentCode::Article1RealEstateTransfer => 1,
            StampTaxDocumentCode::Article1OtherTransfer => 2,
            StampTaxDocumentCode::Article1LandLeaseOrSurfaceRight => 3,
            StampTaxDocumentCode::Article1ConsumptionLoan => 4,
            StampTaxDocumentCode::Article1Transportation => 5,
            StampTaxDocumentCode::Article2ConstructionWork => 6,
            StampTaxDocumentCode::Article2GeneralContract => 7,
            StampTaxDocumentCode::Article3BillAmountTable => 8,
            StampTaxDocumentCode::Article3BillSpecialFlat200 => 9,
            StampTaxDocumentCode::Article4SecurityCertificate => 10,
            StampTaxDocumentCode::Article5MergerOrSplit => 11,
            StampTaxDocumentCode::Article6ArticlesOfIncorporation => 12,
            StampTaxDocumentCode::Article7ContinuingTransactionBasic => 13,
            StampTaxDocumentCode::Article8DepositCertificate => 14,
            StampTaxDocumentCode::Article9TransportCertificate => 15,
            StampTaxDocumentCode::Article10InsuranceCertificate => 16,
            StampTaxDocumentCode::Article11LetterOfCredit => 17,
            StampTaxDocumentCode::Article12TrustContract => 18,
            StampTaxDocumentCode::Article13DebtGuarantee => 19,
            StampTaxDocumentCode::Article14DepositContract => 20,
            StampTaxDocumentCode::Article15AssignmentOrAssumption => 21,
            StampTaxDocumentCode::Article16DividendReceipt => 22,
            StampTaxDocumentCode::Article17SalesReceipt => 23,
            StampTaxDocumentCode::Article17OtherReceipt => 24,
            StampTaxDocumentCode::Article18Passbook => 25,
            StampTaxDocumentCode::Article19MiscPassbook => 26,
            StampTaxDocumentCode::Article20SealBook => 27,
        }
    }

    /// The document code of a C interface code.
    pub fn from_ffi_code(code: u32) -> (r: Result<Self, InputError>)
        ensures
            r matches Ok(c) ==> document_ffi_code(c) == code,
            1 <= code <= 27 <==> r is Ok,
            !(1 <= code <= 27) ==> input_fails_as(
                r,
                Failure::InvalidStampTaxInput(
                    "document_code"@,
                    "未知の印紙税文書コードです: "@ + decimal(code as nat),
                ),
            ),
    {
        proof {
            reveal_strlit("");
        }
        match code {
            1 => Ok(StampTaxDocumentCode::Article1RealEstateTransfer),
            2 => Ok(StampTaxDocumentCode::Article1OtherTransfer),
            3 => Ok(StampTaxDocumentCode::Article1LandLeaseOrSurfaceRight),
            4 => Ok(StampTaxDocumentCode::Article1ConsumptionLoan),
            5 => Ok(StampTaxDocumentCode::Article1Transportation),
            6 => Ok(StampTaxDocumentCode::Article2ConstructionWork),
            7 => Ok(StampTaxDocumentCode::Article2GeneralContract),
            8 => Ok(StampTaxDocumentCode::Article3BillAmountTable),
            9 => Ok(StampTaxDocumentCode::Article3BillSpecialFlat200),
            10 => Ok(StampTaxDocumentCode::Article4SecurityCertificate),
            11 => Ok(StampTaxDocumentCode::Article5MergerOrSplit),
            12 => Ok(StampTaxDocumentCode::Article6ArticlesOfIncorporation),
            13 => Ok(StampTaxDocumentCode::Article7ContinuingTransactionBasic),
            14 => Ok(StampTaxDocumentCode::Article8DepositCertificate),
            15 => Ok(StampTaxDocumentCode::Article9TransportCertificate),
            16 => Ok(StampTaxDocumentCode::Article10InsuranceCertificate),
            17 => Ok(StampTaxDocumentCode::Article11LetterOfCredit),
            18 => Ok(StampTaxDocumentCode::Article12TrustContract),
            19 => Ok(StampTaxDocumentCode::Article13DebtGuarantee),
            20 => Ok(StampTaxDocumentCode::Article14DepositContract),
            21 => Ok(StampTaxDocumentCode::Article15AssignmentOrAssumption),
            22 => Ok(StampTaxDocumentCode::Article16DividendReceipt),
            23 => Ok(StampTaxDocumentCode::Article17SalesReceipt),
            24 => Ok(StampTaxDocumentCode::Article17OtherReceipt),
            25 => Ok(StampTaxDocumentCode::Article18Passbook),
            26 => Ok(StampTaxDocumentCode::Article19MiscPassbook),
            27 => Ok(StampTaxDocumentCode::Article20SealBook),
            _ => Err(
                InputError::InvalidStampTaxInput {
                    field: String::from_str("document_code"),
                    reason: with_decimal("未知の印紙税文書コードです: ", code as u64, ""),
                },
            ),
        }
    }

    /// The document code named by a stable text code.
    pub fn parse_code(s: &str) -> (r: Result<Self, InputError>)
        ensures
            r matches Ok(c) ==> document_code_name(c) == s@,
            (exists|c: StampTaxDocumentCode| document_code_name(c) == s@) <==> r is Ok,
            (forall|c: StampTaxDocumentCode| document_code_name(c) != s@) ==> input_fails_as(
                r,
                Failure::InvalidStampTaxInput("document_code"@, "未知の印紙税文書コードです: "@ + s@),
            ),
    {
        let mut k: u32 = 1;
        while k <= 27
            invariant
                1 <= k <= 28,
                forall|c: StampTaxDocumentCode| document_ffi_code(c) < k ==> document_code_name(c) != s@,
            decreases 28 - k,
        {
            let c = match Self::from_ffi_code(k) {
                Ok(c) => c,
                Err(e) => {
                    proof {
                        assert(false);
                    }
                    return Err(e);
                },
            };
            if str_eq(s, c.as_str()) {
                return Ok(c);
            }
            proof {
                lemma_document_codes_identify(c, c);
                assert forall|d: StampTaxDocumentCode| document_ffi_code(d) < k + 1 implies document_code_name(d) != s@ by {
                    lemma_document_codes_identify(c, d);
                }
            }
            k = k + 1;
        }
        let reason = join3("未知の印紙税文書コードです: ", s, "");
        proof {
            reveal_strlit("");
            assert(reason@ =~= "未知の印紙税文書コードです: "@ + s@);
            assert forall|c: StampTaxDocumentCode| document_code_name(c) != s@ by {
                lemma_document_codes_identify(c, c);
            }
        }
        Err(InputError::InvalidStampTaxInput { field: String::from_str("document_code"), reason })
    }
}

/// Distinct document codes have distinct text codes and distinct integer
/// codes, and every integer code lies in 1 to 27; so reading back the code
/// of a document code gives that document code.
pub proof fn lemma_document_codes_identify(a: StampTaxDocumentCode, b: StampTaxDocumentCode)
    ensures
        document_code_name(a) == document_code_name(b) ==> a == b,
        document_ffi_code(a) == document_ffi_code(b) ==> a == b,
        1 <= document_ffi_code(a) <= 27,
{
    reveal_strlit("article1_real_estate_transfer");
    reveal_strlit("article1_other_transfer");
    reveal_strlit("article1_land_lease_or_surface_right");
    reveal_strlit("article1_consumption_loan");
    reveal_strlit("article1_transportation");
    reveal_strlit("article2_construction_work");
    reveal_strlit("article2_general_contract");
    reveal_strlit("article3_bill_amount_table");
    reveal_strlit("article3_bill_special_flat_200");
    reveal_strlit("article4_security_certificate");
    reveal_strlit("article5_merger_or_split");
    reveal_strlit("article6_articles_of_incorporation");
    reveal_strlit("article7_continuing_transaction_basic");
    reveal_strlit("article8_deposit_certificate");
    reveal_strlit("article9_transport_certificate");
    reveal_strlit("article10_insurance_certificate");
    reveal_strlit("article11_letter_of_credit");
    reveal_strlit("article12_trust_contract");
    reveal_strlit("article13_debt_guarantee");
    reveal_strlit("article14_deposit_contract");
    reveal_strlit("article15_assignment_or_assumption");
    reveal_strlit("article16_dividend_receipt");
    reveal_strlit("article17_sales_receipt");
    reveal_strlit("article17_other_receipt");
    reveal_strlit("article18_passbook");
    reveal_strlit("article19_misc_passbook");
    reveal_strlit("article20_seal_book");
    if document_code_name(a) == document_code_name(b) {
        let na = document_code_name(a);
        let nb = document_code_name(b);
        assert(na.len() == nb.len() && na[10] == nb[10] && na[11] == nb[11]);
    }
}

impl From<StampTaxDocumentCode> for u32 {
    fn from(value: StampTaxDocumentCode) -> (r: u32) {
        value.ffi_code()
    }
}

impl vstd::std_specs::convert::FromSpecImpl<StampTaxDocumentCode> for u32 {
    open spec fn obeys_from_spec() -> bool {
        true
    }

    open spec fn from_spec(value: StampTaxDocumentCode) -> u32 {
        document_ffi_code(value)
    }
}

/// Flags of the main documents that are exempt from stamp tax.
///
/// Whether each flag holds in fact is for the caller to determine.
///
/// Legal basis: Stamp Tax Act, Schedule 1.
#[derive(Debug, Clone, Copy, PartialEq, Eq, Structural, Hash)]
pub enum StampTaxFlag {
    Article3CopyOrTranscriptExempt,
    Article4SpecifiedIssuerExempt,
    Article4RestrictedBeneficiaryCertificateExempt,
    Article6NotaryCopyExempt,
    Article8SmallDepositExempt,
    Article13IdentityGuaranteeExempt,
    Article17NonBusinessExempt,
    Article17AppendedReceiptExempt,
    Article18SpecifiedFinancialInstitutionExempt,
    Article18IncomeTaxExemptPassbook,
    Article18TaxReserveDepositPassbook,
}

/// The position of a flag in the list of all flags, which is also its bit.
pub open spec fn flag_index(f: StampTaxFlag) -> nat {
    match f {
        StampTaxFlag::Article3CopyOrTranscriptExempt => 0,
        StampTaxFlag::Article4SpecifiedIssuerExempt => 1,
        StampTaxFlag::Article4RestrictedBeneficiaryCertificateExempt => 2,
        StampTaxFlag::Article6NotaryCopyExempt => 3,
        StampTaxFlag::Article8SmallDepositExempt => 4,
        StampTaxFlag::Article13IdentityGuaranteeExempt => 5,
        StampTaxFlag::Article17NonBusinessExempt => 6,
        StampTaxFlag::Article17AppendedReceiptExempt => 7,
        StampTaxFlag::Article18SpecifiedFinancialInstitutionExempt => 8,
        StampTaxFlag::Article18IncomeTaxExemptPassbook => 9,
        StampTaxFlag::Article18TaxReserveDepositPassbook => 10,
    }
}

/// The stable text code of a flag.
pub open spec fn flag_name(f: StampTaxFlag) -> Seq<char> {
    match f {
        StampTaxFlag::Article3CopyOrTranscriptExempt => "article3_copy_or_transcript_exempt"@,
        StampTaxFlag::Article4SpecifiedIssuerExempt => "article4_specified_issuer_exempt"@,
        StampTaxFlag::Article4RestrictedBeneficiaryCertificateExempt => "article4_restricted_beneficiary_certificate_exempt"@,
        StampTaxFlag::Article6NotaryCopyExempt => "article6_notary_copy_exempt"@,
        StampTaxFlag::Article8SmallDepositExempt => "article8_small_deposit_exempt"@,
        StampTaxFlag::Article13IdentityGuaranteeExempt => "article13_identity_guarantee_exempt"@,
        StampTaxFlag::Article17NonBusinessExempt => "article17_non_business_exempt"@,
        StampTaxFlag::Article17AppendedReceiptExempt => "article17_appended_receipt_exempt"@,
        StampTaxFlag::Article18SpecifiedFinancialInstitutionExempt => "article18_specified_financial_institution_exempt"@,
        StampTaxFlag::Article18IncomeTaxExemptPassbook => "article18_income_tax_exempt_passbook"@,
        StampTaxFlag::Article18TaxReserveDepositPassbook => "article18_tax_reserve_deposit_passbook"@,
    }
}

/// All flags, in the order of their bits.
pub open spec fn all_flags() -> Seq<StampTaxFlag> {
    seq![
        StampTaxFlag::Article3CopyOrTranscriptExempt,
        StampTaxFlag::Article4SpecifiedIssuerExempt,
        StampTaxFlag::Article4RestrictedBeneficiaryCertificateExempt,
        StampTaxFlag::Article6NotaryCopyExempt,
        StampTaxFlag::Article8SmallDepositExempt,
        StampTaxFlag::Article13IdentityGuaranteeExempt,
        StampTaxFlag::Article17NonBusinessExempt,
        StampTaxFlag::Article17AppendedReceiptExempt,
        StampTaxFlag::Article18SpecifiedFinancialInstitutionExempt,
        StampTaxFlag::Article18IncomeTaxExemptPassbook,
        StampTaxFlag::Article18TaxReserveDepositPassbook,
    ]
}

/// The document codes for which a flag may be given.
pub open spec fn flag_documents(f: StampTaxFlag) -> Seq<StampTaxDocumentCode> {
    match f {
        StampTaxFlag::Article3CopyOrTranscriptExempt => seq![StampTaxDocumentCode::Article3BillAmountTable],
        StampTaxFlag::Article4SpecifiedIssuerExempt => seq![StampTaxDocumentCode::Article4SecurityCertificate],
        StampTaxFlag::Article4RestrictedBeneficiaryCertificateExempt => seq![StampTaxDocumentCode::Article4SecurityCertificate],
        StampTaxFlag::Article6NotaryCopyExempt => seq![StampTaxDocumentCode::Article6ArticlesOfIncorporation],
        StampTaxFlag::Article8SmallDepositExempt => seq![StampTaxDocumentCode::Article8DepositCertificate],
        StampTaxFlag::Article13IdentityGuaranteeExempt => seq![StampTaxDocumentCode::Article13DebtGuarantee],
        StampTaxFlag::Article17NonBusinessExempt => seq![StampTaxDocumentCode::Article17SalesReceipt],
        StampTaxFlag::Article17AppendedReceiptExempt => seq![StampTaxDocumentCode::Article17SalesReceipt],
        StampTaxFlag::Article18SpecifiedFinancialInstitutionExempt => seq![StampTaxDocumentCode::Article18Passbook],
        StampTaxFlag::Article18IncomeTaxExemptPassbook => seq![StampTaxDocumentCode::Article18Passbook],
        StampTaxFlag::Article18TaxReserveDepositPassbook => seq![StampTaxDocumentCode::Article18Passbook],
    }
}

/// The bits of all flags.
pub open spec fn known_flag_bits() -> u64 {
    0x7ff
}

impl FlagCode for StampTaxFlag {
    open spec fn flag_code(self) -> nat {
        flag_index(self)
    }

    fn code(&self) -> (c: u32) {
        match self {
            StampTaxFlag::Article3CopyOrTranscriptExempt => 0,
            StampTaxFlag::Article4SpecifiedIssuerExempt => 1,
            StampTaxFlag::Article4RestrictedBeneficiaryCertificateExempt => 2,
            StampTaxFlag::Article6NotaryCopyExempt => 3,
            StampTaxFlag::Article8SmallDepositExempt => 4,
            StampTaxFlag::Article13IdentityGuaranteeExempt => 5,
            StampTaxFlag::Article17NonBusinessExempt => 6,
            StampTaxFlag::Article17AppendedReceiptExempt => 7,
            StampTaxFlag::Article18SpecifiedFinancialInstitutionExempt => 8,
            StampTaxFlag::Article18IncomeTaxExemptPassbook => 9,
            StampTaxFlag::Article18TaxReserveDepositPassbook => 10,
        }
    }

    proof fn lemma_code_injective(a: Self, b: Self) {
    }
}

impl StampTaxFlag {
    /// The stable text code.
    pub fn as_str(self) -> (s: &'static str)
        ensures
            s@ == flag_name(self),
    {
        match self {
            StampTaxFlag::Article3CopyOrTranscriptExempt => "article3_copy_or_transcript_exempt",
            StampTaxFlag::Article4SpecifiedIssuerExempt => "article4_specified_issuer_exempt",
            StampTaxFlag::Article4RestrictedBeneficiaryCertificateExempt => "article4_restricted_beneficiary_certificate_exempt",
            StampTaxFlag::Article6NotaryCopyExempt => "article6_notary_copy_exempt",
            StampTaxFlag::Article8SmallDepositExempt => "article8_small_deposit_exempt",
            StampTaxFlag::Article13IdentityGuaranteeExempt => "article13_identity_guarantee_exempt",
            StampTaxFlag::Article17NonBusinessExempt => "article17_non_business_exempt",
            StampTaxFlag::Article17AppendedReceiptExempt => "article17_appended_receipt_exempt",
            StampTaxFlag::Article18SpecifiedFinancialInstitutionExempt => "article18_specified_financial_institution_exempt",
            StampTaxFlag::Article18IncomeTaxExemptPassbook => "article18_income_tax_exempt_passbook",
            StampTaxFlag::Article18TaxReserveDepositPassbook => "article18_tax_reserve_deposit_passbook",
        }
    }

    /// The bit of the flag in a flag mask.
    pub fn bitmask(self) -> (r: u64)
        ensures
            r == 1u64 << flag_index(self),
            flag_index(self) < 11,
    {
        match self {
            StampTaxFlag::Article3CopyOrTranscriptExempt => 1u64 << 0u64,
            StampTaxFlag::Article4SpecifiedIssuerExempt => 1u64 << 1u64,
            StampTaxFlag::Article4RestrictedBeneficiaryCertificateExempt => 1u64 << 2u64,
            StampTaxFlag::Article6NotaryCopyExempt => 1u64 << 3u64,
            StampTaxFlag::Article8SmallDepositExempt => 1u64 << 4u64,
            StampTaxFlag::Article13IdentityGuaranteeExempt => 1u64 << 5u64,
            StampTaxFlag::Article17NonBusinessExempt => 1u64 << 6u64,
            StampTaxFlag::Article17AppendedReceiptExempt => 1u64 << 7u64,
            StampTaxFlag::Article18SpecifiedFinancialInstitutionExempt => 1u64 << 8u64,
            StampTaxFlag::Article18IncomeTaxExemptPassbook => 1u64 << 9u64,
            StampTaxFlag::Article18TaxReserveDepositPassbook => 1u64 << 10u64,
        }
    }

    /// All flags, in the order of their bits.
    pub fn all() -> (r: Vec<Self>)
        ensures
            r@ == all_flags(),
    {
        let mut r = Vec::new();
        r.push(StampTaxFlag::Article3CopyOrTranscriptExempt);
        r.push(StampTaxFlag::Article4SpecifiedIssuerExempt);
        r.push(StampTaxFlag::Article4RestrictedBeneficiaryCertificateExempt);
        r.push(StampTaxFlag::Article6NotaryCopyExempt);
        r.push(StampTaxFlag::Article8SmallDepositExempt);
        r.push(StampTaxFlag::Article13IdentityGuaranteeExempt);
        r.push(StampTaxFlag::Article17NonBusinessExempt);
        r.push(StampTaxFlag::Article17AppendedReceiptExempt);
        r.push(StampTaxFlag::Article18SpecifiedFinancialInstitutionExempt);
        r.push(StampTaxFlag::Article18IncomeTaxExemptPassbook);
        r.push(StampTaxFlag::Article18TaxReserveDepositPassbook);
        proof {
            assert(r@ =~= all_flags());
        }
        r
    }

    /// The document codes for which the flag may be given.
    pub fn allowed_document_codes(self) -> (r: Vec<StampTaxDocumentCode>)
        ensures
            r@ == flag_documents(self),
    {
        let mut r = Vec::new();
        match self {
            StampTaxFlag::Article3CopyOrTranscriptExempt => r.push(StampTaxDocumentCode::Article3BillAmountTable),
            StampTaxFlag::Article4SpecifiedIssuerExempt => r.push(StampTaxDocumentCode::Article4SecurityCertificate),
            StampTaxFlag::Article4RestrictedBeneficiaryCertificateExempt => r.push(StampTaxDocumentCode::Article4SecurityCertificate),
            StampTaxFlag::Article6NotaryCopyExempt => r.push(StampTaxDocumentCode::Article6ArticlesOfIncorporation),
            StampTaxFlag::Article8SmallDepositExempt => r.push(StampTaxDocumentCode::Article8DepositCertificate),
            StampTaxFlag::Article13IdentityGuaranteeExempt => r.push(StampTaxDocumentCode::Article13DebtGuarantee),
            StampTaxFlag::Article17NonBusinessExempt => r.push(StampTaxDocumentCode::Article17SalesReceipt),
            StampTaxFlag::Article17AppendedReceiptExempt => r.push(StampTaxDocumentCode::Article17SalesReceipt),
            StampTaxFlag::Article18SpecifiedFinancialInstitutionExempt => r.push(StampTaxDocumentCode::Article18Passbook),
            StampTaxFlag::Article18IncomeTaxExemptPassbook => r.push(StampTaxDocumentCode::Article18Passbook),
            StampTaxFlag::Article18TaxReserveDepositPassbook => r.push(StampTaxDocumentCode::Article18Passbook),
        }
        proof {
            assert(r@ =~= flag_documents(self));
        }
        r
    }

    /// Whether the flag may only be given with a stated amount.
    pub fn requires_stated_amount(self) -> (r: bool)
        ensures
            r == (self == StampTaxFlag::Article8SmallDepositExempt),
    {
        match self {
            StampTaxFlag::Article8SmallDepositExempt => true,
            _ => false,
        }
    }

    /// The flag named by a stable text code.
    pub fn parse_code(s: &str) -> (r: Result<Self, InputError>)
        ensures
            r matches Ok(f) ==> flag_name(f) == s@,
            (exists|f: StampTaxFlag| flag_name(f) == s@) <==> r is Ok,
            (forall|f: StampTaxFlag| flag_name(f) != s@) ==> input_fails_as(
                r,
                Failure::InvalidStampTaxInput("flags"@, "未知の印紙税フラグです: "@ + s@),
            ),
    {
        let all = Self::all();
        let mut k: usize = 0;
        while k < all.len()
            invariant
                all@ == all_flags(),
                0 <= k <= 11,
                forall|f: StampTaxFlag| flag_index(f) < k ==> flag_name(f) != s@,
            decreases 11 - k,
        {
            let f = all[k];
            proof {
                lemma_flag_position(f);
                assert(all_flags()[k as int] == f);
            }
            if str_eq(s, f.as_str()) {
                return Ok(f);
            }
            proof {
                assert forall|g: StampTaxFlag| flag_index(g) < k + 1 implies flag_name(g) != s@ by {
                    lemma_flag_names_identify(f, g);
                    lemma_flag_position(g);
                }
            }
            k = k + 1;
        }
        let reason = join3("未知の印紙税フラグです: ", s, "");
        proof {
            reveal_strlit("");
            assert(reason@ =~= "未知の印紙税フラグです: "@ + s@);
            assert forall|f: StampTaxFlag| flag_name(f) != s@ by {
                lemma_flag_position(f);
            }
        }
        Err(InputError::InvalidStampTaxInput { field: String::from_str("flags"), reason })
    }

    /// The set of flags whose bits are set in `mask`; a bit that names no
    /// flag is refused.
    pub fn from_bitmask(mask: u64) -> (r: Result<FlagSet<Self>, InputError>)
        ensures
            r is Ok <==> mask & !known_flag_bits() == 0,
            r matches Ok(set) ==> (forall|f: StampTaxFlag| #[trigger] set@.contains(f) <==> mask & (1u64 << flag_index(f)) != 0),
            !(mask & !known_flag_bits() == 0) ==> input_fails_as(
                r,
                Failure::InvalidStampTaxInput(
                    "flags"@,
                    "未知の印紙税フラグビットです: 0x"@ + hexadecimal((mask & !known_flag_bits()) as nat),
                ),
            ),
    {
        let all = Self::all();
        let mut flags = FlagSet::new();
        let mut remaining = mask;
        let mut k: usize = 0;
        proof {
            assert(mask & !(((1u64 << 0u64) - 1) as u64) == mask) by (bit_vector);
        }
        while k < all.len()
            invariant
                all@ == all_flags(),
                0 <= k <= 11,
                remaining == mask & !(((1u64 << (k as u64)) - 1) as u64),
                forall|f: StampTaxFlag| #[trigger] flags@.contains(f) <==> (flag_index(f) < k && mask & (1u64 << flag_index(f)) != 0),
            decreases 11 - k,
        {
            let f = all[k];
            proof {
                lemma_flag_position(f);
                assert(all_flags()[k as int] == f);
            }
            let bit = f.bitmask();
            let ghost kk = k as u64;
            let ghost before = remaining;
            proof {
                assert(bit == 1u64 << kk);
                assert(before == mask & !(((1u64 << kk) - 1) as u64));
                assert((mask & !(((1u64 << kk) - 1) as u64)) & (1u64 << kk) == mask & (1u64 << kk)) by (bit_vector)
                    requires kk < 11;
                assert((mask & !(((1u64 << kk) - 1) as u64)) & !(1u64 << kk) == mask & !(((1u64 << ((kk + 1) as u64)) - 1) as u64)) by (bit_vector)
                    requires kk < 11;
                assert(before & bit == 0 ==> before & !bit == before) by (bit_vector);
            }
            if remaining & bit != 0 {
                flags.insert(f);
                remaining = remaining & !bit;
            }
            proof {
                assert(remaining == before & !bit);
                assert forall|g: StampTaxFlag| #[trigger] flags@.contains(g) <==> (flag_index(g) < k + 1 && mask & (1u64 << flag_index(g)) != 0) by {
                    lemma_flag_position(g);
                    if flag_index(g) == k {
                        lemma_flag_position(f);
                        assert(g == f);
                    }
                }
            }
            k = k + 1;
        }
        proof {
            assert(!(((1u64 << 11u64) - 1) as u64) == !known_flag_bits()) by (bit_vector);
        }
        if remaining != 0 {
            let mut reason = String::from_str("未知の印紙税フラグビットです: 0x");
            push_hex(&mut reason, remaining);
            return Err(InputError::InvalidStampTaxInput { field: String::from_str("flags"), reason });
        }
        Ok(flags)
    }
}

/// The position of each flag in the list of all flags, and its bit.
pub proof fn lemma_flag_position(f: StampTaxFlag)
    ensures
        flag_index(f) < 11,
        all_flags()[flag_index(f) as int] == f,
        all_flags().len() == 11,
{
}

/// The bits of the flags of `s` among the first `k` flags, or-ed together.
pub open spec fn flags_mask_upto(s: Set<StampTaxFlag>, k: nat) -> u64
    decreases k,
{
    if k == 0 {
        0
    } else {
        let prev = flags_mask_upto(s, (k - 1) as nat);
        if s.contains(all_flags()[k - 1]) {
            prev | (1u64 << ((k - 1) as u64))
        } else {
            prev
        }
    }
}

/// The bits of all the flags of `s`, or-ed together.
pub open spec fn flags_mask(s: Set<StampTaxFlag>) -> u64 {
    flags_mask_upto(s, 11)
}

proof fn lemma_flags_mask_upto(s: Set<StampTaxFlag>, k: nat)
    requires
        k <= 11,
    ensures
        flags_mask_upto(s, k) < (1u64 << (k as u64)),
        forall|j: nat|
            j < 11 ==> (#[trigger] (flags_mask_upto(s, k) & (1u64 << (j as u64))) != 0 <==> (j < k
                && s.contains(all_flags()[j as int]))),
    decreases k,
{
    if k == 0 {
        assert(0u64 < (1u64 << 0u64)) by (bit_vector);
        assert forall|j: nat| j < 11 implies (#[trigger] (flags_mask_upto(s, 0) & (1u64 << (
        j as u64))) == 0) by {
            let jj = j as u64;
            assert(0u64 & (1u64 << jj) == 0) by (bit_vector);
        }
    } else {
        let km = (k - 1) as nat;
        lemma_flags_mask_upto(s, km);
        let a = flags_mask_upto(s, km);
        let kk = km as u64;
        assert(a < (1u64 << kk));
        assert(a < (1u64 << kk) ==> (a | (1u64 << kk)) < (1u64 << ((kk + 1) as u64))) by (bit_vector)
            requires
                kk < 11,
        ;
        assert(a < (1u64 << kk) ==> a < (1u64 << ((kk + 1) as u64))) by (bit_vector)
            requires
                kk < 11,
        ;
        assert((a | (1u64 << kk)) & (1u64 << kk) != 0) by (bit_vector)
            requires
                kk < 11,
        ;
        assert forall|j: nat| j < 11 implies (#[trigger] (flags_mask_upto(s, k) & (1u64 << (
        j as u64))) != 0 <==> (j < k && s.contains(all_flags()[j as int]))) by {
            let jj = j as u64;
            if j < km {
                assert(a < (1u64 << kk) ==> (a | (1u64 << kk)) & (1u64 << jj) == a & (1u64 << jj))
                    by (bit_vector)
                    requires
                        kk < 11,
                        jj < kk,
                ;
            } else if j > km {
                assert(a < (1u64 << kk) ==> a & (1u64 << jj) == 0) by (bit_vector)
                    requires
                        kk < 11,
                        jj < 11,
                        jj > kk,
                ;
                assert(a < (1u64 << kk) ==> (a | (1u64 << kk)) & (1u64 << jj) == 0) by (bit_vector)
                    requires
                        kk < 11,
                        jj < 11,
                        jj > kk,
                ;
            } else {
                assert(a < (1u64 << kk) ==> a & (1u64 << jj) == 0) by (bit_vector)
                    requires
                        kk < 11,
                        jj == kk,
                ;
            }
        }
    }
}

/// Or-ing the bits of a set of flags gives a mask with no unknown bit and
/// with the bit of each flag set exactly when the flag is in the set; so
/// [`StampTaxFlag::from_bitmask`] gives that set back.
pub proof fn lemma_flags_mask(s: Set<StampTaxFlag>)
    ensures
        flags_mask(s) & !known_flag_bits() == 0,
        forall|f: StampTaxFlag|
            #![trigger s.contains(f)]
            (flags_mask(s) & (1u64 << flag_index(f))) != 0 <==> s.contains(f),
{
    lemma_flags_mask_upto(s, 11);
    let m = flags_mask(s);
    assert(m < (1u64 << 11u64) ==> m & !0x7ffu64 == 0) by (bit_vector);
    assert forall|f: StampTaxFlag| #![trigger s.contains(f)]
        (m & (1u64 << flag_index(f))) != 0 <==> s.contains(f) by {
        lemma_flag_position(f);
        let j = flag_index(f);
        assert((m & (1u64 << (j as u64))) != 0 <==> (j < 11 && s.contains(all_flags()[j as int])));
    }
}

/// Distinct flags have distinct text codes and distinct bits; so reading
/// back the code of a flag gives that flag.
pub proof fn lemma_flag_names_identify(a: StampTaxFlag, b: StampTaxFlag)
    ensures
        flag_name(a) == flag_name(b) ==> a == b,
        flag_index(a) == flag_index(b) ==> a == b,
{
    reveal_strlit("article3_copy_or_transcript_exempt");
    reveal_strlit("article4_specified_issuer_exempt");
    reveal_strlit("article4_restricted_beneficiary_certificate_exempt");
    reveal_strlit("article6_notary_copy_exempt");
    reveal_strlit("article8_small_deposit_exempt");
    reveal_strlit("article13_identity_guarantee_exempt");
    reveal_strlit("article17_non_business_exempt");
    reveal_strlit("article17_appended_receipt_exempt");
    reveal_strlit("article18_specified_financial_institution_exempt");
    reveal_strlit("article18_income_tax_exempt_passbook");
    reveal_strlit("article18_tax_reserve_deposit_passbook");
    if flag_name(a) == flag_name(b) {
        let na = flag_name(a);
        let nb = flag_name(b);
        assert(na.len() == nb.len() && na[7] == nb[7]);
    }
}

impl std::str::FromStr for StampTaxDocumentCode {
    type Err = InputError;

    /// The document code named by a stable text code, as
    /// [`StampTaxDocumentCode::parse_code`] reads it.
    fn from_str(s: &str) -> (r: Result<Self, InputError>)
        ensures
            r matches Ok(c) ==> document_code_name(c) == s@,
            (exists|c: StampTaxDocumentCode| document_code_name(c) == s@) <==> r is Ok,
            (forall|c: StampTaxDocumentCode| document_code_name(c) != s@) ==> input_fails_as(
                r,
                Failure::InvalidStampTaxInput("document_code"@, "未知の印紙税文書コードです: "@ + s@),
            ),
    {
        Self::parse_code(s)
    }
}

impl std::str::FromStr for StampTaxFlag {
    type Err = InputError;

    /// The flag named by a stable text code, as
    /// [`StampTaxFlag::parse_code`] reads it.
    fn from_str(s: &str) -> (r: Result<Self, InputError>)
        ensures
            r matches Ok(f) ==> flag_name(f) == s@,
            (exists|f: StampTaxFlag| flag_name(f) == s@) <==> r is Ok,
            (forall|f: StampTaxFlag| flag_name(f) != s@) ==> input_fails_as(
                r,
                Failure::InvalidStampTaxInput("flags"@, "未知の印紙税フラグです: "@ + s@),
            ),
    {
        Self::parse_code(s)
    }
}

/// The input of the stamp tax calculation.
///
/// Legal basis: Stamp Tax Act, Article 2 (taxable documents) and Schedule 1.
pub struct StampTaxContext<P: StampTaxPolicy> {
    /// The document code.
    pub document_code: StampTaxDocumentCode,
    /// The amount stated on the document (contract, face or receipt amount).
    pub stated_amount: Option<u64>,
    /// The date the document was made.
    pub target_date: LegalDate,
    /// The exemption flags given.
    pub flags: FlagSet<StampTaxFlag>,
    /// The special-rule policy.
    pub policy: P,
}

} // verus!
