use vstd::prelude::*;

use crate::domains::social_insurance::policy::SocialInsurancePolicy;
use crate::flags::{FlagCode, FlagSet};
use crate::types::date::LegalDate;

verus! {

/// The prefecture branch of the Japan Health Insurance Association, by its
/// branch code 1 (Hokkaido) to 47 (Okinawa).
///
/// Legal basis: Health Insurance Act, Article 160.
#[derive(Debug, Clone, Copy, PartialEq, Eq, Structural, Hash)]
pub enum SocialInsurancePrefecture {
    Hokkaido,
    Aomori,
    Iwate,
    Miyagi,
    Akita,
    Yamagata,
    Fukushima,
    Ibaraki,
    Tochigi,
    Gunma,
    Saitama,
    Chiba,
    Tokyo,
    Kanagawa,
    Niigata,
    Toyama,
    Ishikawa,
    Fukui,
    Yamanashi,
    Nagano,
    Gifu,
    Shizuoka,
    Aichi,
    Mie,
    Shiga,
    Kyoto,
    Osaka,
    Hyogo,
    Nara,
    Wakayama,
    Tottori,
    Shimane,
    Okayama,
    Hiroshima,
    Yamaguchi,
    Tokushima,
    Kagawa,
    Ehime,
    Kochi,
    Fukuoka,
    Saga,
    Nagasaki,
    Kumamoto,
    Oita,
    Miyazaki,
    Kagoshima,
    Okinawa,
}

/// The branch code of a prefecture.
pub open spec fn prefecture_code(p: SocialInsurancePrefecture) -> nat {
        match p {
            SocialInsurancePrefecture::Hokkaido => 1,
            SocialInsurancePrefecture::Aomori => 2,
            SocialInsurancePrefecture::Iwate => 3,
            SocialInsurancePrefecture::Miyagi => 4,
            SocialInsurancePrefecture::Akita => 5,
            SocialInsurancePrefecture::Yamagata => 6,
            SocialInsurancePrefecture::Fukushima => 7,
            SocialInsurancePrefecture::Ibaraki => 8,
            SocialInsurancePrefecture::Tochigi => 9,
            SocialInsurancePrefecture::Gunma => 10,
            SocialInsurancePrefecture::Saitama => 11,
            SocialInsurancePrefecture::Chiba => 12,
            SocialInsurancePrefecture::Tokyo => 13,
            SocialInsurancePrefecture::Kanagawa => 14,
            SocialInsurancePrefecture::Niigata => 15,
            SocialInsurancePrefecture::Toyama => 16,
            SocialInsurancePrefecture::Ishikawa => 17,
            SocialInsurancePrefecture::Fukui => 18,
            SocialInsurancePrefecture::Yamanashi => 19,
            SocialInsurancePrefecture::Nagano => 20,
            SocialInsurancePrefecture::Gifu => 21,
            SocialInsurancePrefecture::Shizuoka => 22,
            SocialInsurancePrefecture::Aichi => 23,
            SocialInsurancePrefecture::Mie => 24,
            SocialInsurancePrefecture::Shiga => 25,
            SocialInsurancePrefecture::Kyoto => 26,
            SocialInsurancePrefecture::Osaka => 27,
            SocialInsurancePrefecture::Hyogo => 28,
            SocialInsurancePrefecture::Nara => 29,
            SocialInsurancePrefecture::Wakayama => 30,
            SocialInsurancePrefecture::Tottori => 31,
            SocialInsurancePrefecture::Shimane => 32,
            SocialInsurancePrefecture::Okayama => 33,
            SocialInsurancePrefecture::Hiroshima => 34,
            SocialInsurancePrefecture::Yamaguchi => 35,
            SocialInsurancePrefecture::Tokushima => 36,
            SocialInsurancePrefecture::Kagawa => 37,
            SocialInsurancePrefecture::Ehime => 38,
            SocialInsurancePrefecture::Kochi => 39,
            SocialInsurancePrefecture::Fukuoka => 40,
            SocialInsurancePrefecture::Saga => 41,
            SocialInsurancePrefecture::Nagasaki => 42,
            SocialInsurancePrefecture::Kumamoto => 43,
            SocialInsurancePrefecture::Oita => 44,
            SocialInsurancePrefecture::Miyazaki => 45,
            SocialInsurancePrefecture::Kagoshima => 46,
            SocialInsurancePrefecture::Okinawa => 47,
        }
}

impl SocialInsurancePrefecture {
    /// The prefecture with branch code `code`, if any.
    pub fn from_code(code: u8) -> (r: Option<Self>)
        ensures
            1 <= code <= 47 <==> r is Some,
            r matches Some(p) ==> prefecture_code(p) == code,
    {
        match code {
            1 => Some(SocialInsurancePrefecture::Hokkaido),
            2 => Some(SocialInsurancePrefecture::Aomori),
            3 => Some(SocialInsurancePrefecture::Iwate),
            4 => Some(SocialInsurancePrefecture::Miyagi),
            5 => Some(SocialInsurancePrefecture::Akita),
            6 => Some(SocialInsurancePrefecture::Yamagata),
            7 => Some(SocialInsurancePrefecture::Fukushima),
            8 => Some(SocialInsurancePrefecture::Ibaraki),
            9 => Some(SocialInsurancePrefecture::Tochigi),
            10 => Some(SocialInsurancePrefecture::Gunma),
            11 => Some(SocialInsurancePrefecture::Saitama),
            12 => Some(SocialInsurancePrefecture::Chiba),
            13 => Some(SocialInsurancePrefecture::Tokyo),
            14 => Some(SocialInsurancePrefecture::Kanagawa),
            15 => Some(SocialInsurancePrefecture::Niigata),
            16 => Some(SocialInsurancePrefecture::Toyama),
            17 => Some(SocialInsurancePrefecture::Ishikawa),
            18 => Some(SocialInsurancePrefecture::Fukui),
            19 => Some(SocialInsurancePrefecture::Yamanashi),
            20 => Some(SocialInsurancePrefecture::Nagano),
            21 => Some(SocialInsurancePrefecture::Gifu),
            22 => Some(SocialInsurancePrefecture::Shizuoka),
            23 => Some(SocialInsurancePrefecture::Aichi),
            24 => Some(SocialInsurancePrefecture::Mie),
            25 => Some(SocialInsurancePrefecture::Shiga),
            26 => Some(SocialInsurancePrefecture::Kyoto),
            27 => Some(SocialInsurancePrefecture::Osaka),
            28 => Some(SocialInsurancePrefecture::Hyogo),
            29 => Some(SocialInsurancePrefecture::Nara),
            30 => Some(SocialInsurancePrefecture::Wakayama),
            31 => Some(SocialInsurancePrefecture::Tottori),
            32 => Some(SocialInsurancePrefecture::Shimane),
            33 => Some(SocialInsurancePrefecture::Okayama),
            34 => Some(SocialInsurancePrefecture::Hiroshima),
            35 => Some(SocialInsurancePrefecture::Yamaguchi),
            36 => Some(SocialInsurancePrefecture::Tokushima),
            37 => Some(SocialInsurancePrefecture::Kagawa),
            38 => Some(SocialInsurancePrefecture::Ehime),
            39 => Some(SocialInsurancePrefecture::Kochi),
            40 => Some(SocialInsurancePrefecture::Fukuoka),
            41 => Some(SocialInsurancePrefecture::Saga),
            42 => Some(SocialInsurancePrefecture::Nagasaki),
            43 => Some(SocialInsurancePrefecture::Kumamoto),
            44 => Some(SocialInsurancePrefecture::Oita),
            45 => Some(SocialInsurancePrefecture::Miyazaki),
            46 => Some(SocialInsurancePrefecture::Kagoshima),
            47 => Some(SocialInsurancePrefecture::Okinawa),
            _ => None,
        }
    }

    /// The branch code.
    pub fn code(self) -> (r: u8)
        ensures
            r == prefecture_code(self),
            1 <= r <= 47,
    {
        match self {
            SocialInsurancePrefecture::Hokkaido => 1,
            SocialInsurancePrefecture::Aomori => 2,
            SocialInsurancePrefecture::Iwate => 3,
            SocialInsurancePrefecture::Miyagi => 4,
            SocialInsurancePrefecture::Akita => 5,
            SocialInsurancePrefecture::Yamagata => 6,
            SocialInsurancePrefecture::Fukushima => 7,
            SocialInsurancePrefecture::Ibaraki => 8,
            SocialInsurancePrefecture::Tochigi => 9,
            SocialInsurancePrefecture::Gunma => 10,
            SocialInsurancePrefecture::Saitama => 11,
            SocialInsurancePrefecture::Chiba => 12,
            SocialInsurancePrefecture::Tokyo => 13,
            SocialInsurancePrefecture::Kanagawa => 14,
            SocialInsurancePrefecture::Niigata => 15,
            SocialInsurancePrefecture::Toyama => 16,
            SocialInsurancePrefecture::Ishikawa => 17,
            SocialInsurancePrefecture::Fukui => 18,
            SocialInsurancePrefecture::Yamanashi => 19,
            SocialInsurancePrefecture::Nagano => 20,
            SocialInsurancePrefecture::Gifu => 21,
            SocialInsurancePrefecture::Shizuoka => 22,
            SocialInsurancePrefecture::Aichi => 23,
            SocialInsurancePrefecture::Mie => 24,
            SocialInsurancePrefecture::Shiga => 25,
            SocialInsurancePrefecture::Kyoto => 26,
            SocialInsurancePrefecture::Osaka => 27,
            SocialInsurancePrefecture::Hyogo => 28,
            SocialInsurancePrefecture::Nara => 29,
            SocialInsurancePrefecture::Wakayama => 30,
            SocialInsurancePrefecture::Tottori => 31,
            SocialInsurancePrefecture::Shimane => 32,
            SocialInsurancePrefecture::Okayama => 33,
            SocialInsurancePrefecture::Hiroshima => 34,
            SocialInsurancePrefecture::Yamaguchi => 35,
            SocialInsurancePrefecture::Tokushima => 36,
            SocialInsurancePrefecture::Kagawa => 37,
            SocialInsurancePrefecture::Ehime => 38,
            SocialInsurancePrefecture::Kochi => 39,
            SocialInsurancePrefecture::Fukuoka => 40,
            SocialInsurancePrefecture::Saga => 41,
            SocialInsurancePrefecture::Nagasaki => 42,
            SocialInsurancePrefecture::Kumamoto => 43,
            SocialInsurancePrefecture::Oita => 44,
            SocialInsurancePrefecture::Miyazaki => 45,
            SocialInsurancePrefecture::Kagoshima => 46,
            SocialInsurancePrefecture::Okinawa => 47,
        }
    }
}

/// Reading a prefecture back from its code gives the same prefecture, and
/// every code from 1 to 47 names exactly one prefecture.
pub proof fn lemma_prefecture_code_injective(a: SocialInsurancePrefecture, b: SocialInsurancePrefecture)
    ensures
        prefecture_code(a) == prefecture_code(b) ==> a == b,
        1 <= prefecture_code(a) <= 47,
{
}

/// Social insurance flags (Long-Term Care Insurance Act, Article 129).
#[derive(Debug, Clone, Copy, PartialEq, Eq, Structural, Hash)]
pub enum SocialInsuranceFlag {
    /// The insured person is a category 2 insured person of long-term care
    /// insurance, so the care premium is added; a determination for the
    /// caller to make.
    IsCareInsuranceApplicable,
}

impl FlagCode for SocialInsuranceFlag {
    open spec fn flag_code(self) -> nat {
        0
    }

    fn code(&self) -> (c: u32) {
        0
    }

    proof fn lemma_code_injective(a: Self, b: Self) {
    }
}

/// The input of the monthly social insurance premium calculation for an
/// ordinary insured person of the Japan Health Insurance Association, from a
/// standard monthly remuneration already determined.
///
/// Legal basis: Health Insurance Act, Article 160; Long-Term Care Insurance
/// Act, Article 129; Employees' Pension Insurance Act, Article 81.
pub struct SocialInsuranceContext<P: SocialInsurancePolicy> {
    /// The standard monthly remuneration for health insurance, in yen.
    pub standard_monthly_remuneration: u64,
    /// The date whose rates apply (the first day of the month).
    pub target_date: LegalDate,
    /// The prefecture branch.
    pub prefecture: SocialInsurancePrefecture,
    /// The flags given.
    pub flags: FlagSet<SocialInsuranceFlag>,
    /// The rounding policy of the employee's share.
    pub policy: P,
}

} // verus!
