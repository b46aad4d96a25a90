use vstd::prelude::*;
use vstd::std_specs::convert::FromSpecImpl;

use crate::error::InputError;
use crate::text::{
    decimal, decimal_width, digit_char, padded_decimal, push_decimal, push_padded_decimal, zero_padded,
};

verus! {

/// A calendar date (Gregorian) on which a statute takes effect or a
/// calculation is based.
#[derive(Debug, Clone, Copy, PartialEq, Eq, Structural, Hash)]
pub struct LegalDate {
    /// Year (Common Era).
    pub year: u16,
    /// Month, 1 to 12.
    pub month: u8,
    /// Day, 1 to 31.
    pub day: u8,
}

/// Gregorian leap year: divisible by 4, and not by 100 unless by 400.
pub open spec fn is_leap(year: nat) -> bool {
    year % 4 == 0 && (year % 100 != 0 || year % 400 == 0)
}

/// The number of days of `month` in `year`; 0 for a month outside 1 to 12.
pub open spec fn month_length(year: nat, month: nat) -> nat {
    if month == 1 || month == 3 || month == 5 || month == 7 || month == 8 || month == 10
        || month == 12 {
        31
    } else if month == 4 || month == 6 || month == 9 || month == 11 {
        30
    } else if month == 2 {
        if is_leap(year) {
            29
        } else {
            28
        }
    } else {
        0
    }
}

/// Whether year, month and day name a real calendar date.
pub open spec fn is_valid_date(year: nat, month: nat, day: nat) -> bool {
    &&& year != 0
    &&& 1 <= month <= 12
    &&& 1 <= day <= month_length(year, month)
}

/// The `YYYY-MM-DD` text of a date (`{:04}-{:02}-{:02}`).
pub open spec fn date_text(d: LegalDate) -> Seq<char> {
    padded_decimal(d.year as nat, 4) + seq!['-'] + padded_decimal(d.month as nat, 2) + seq!['-']
        + padded_decimal(d.day as nat, 2)
}

/// The day after `d`, carrying over month and year ends.
pub open spec fn following_date(d: LegalDate) -> (int, int, int) {
    let max_day = month_length(d.year as nat, d.month as nat);
    if d.day < max_day {
        (d.year as int, d.month as int, d.day + 1)
    } else if d.month < 12 {
        (d.year as int, d.month + 1, 1)
    } else {
        (d.year + 1, 1, 1)
    }
}

/// Whether the date `a` comes strictly before `b`.
pub open spec fn is_before(a: LegalDate, b: LegalDate) -> bool {
    a.year < b.year || (a.year == b.year && (a.month < b.month || (a.month == b.month && a.day
        < b.day)))
}

/// Whether `c` is an ASCII decimal digit.
pub open spec fn is_digit(c: char) -> bool {
    '0' <= c <= '9'
}

/// The value of a decimal digit character.
pub open spec fn digit_value(c: char) -> nat {
    (c as nat - '0' as nat) as nat
}

/// The value of the two digits `s[i]`, `s[i + 1]`.
pub open spec fn two_digits(s: Seq<char>, i: int) -> nat {
    10 * digit_value(s[i]) + digit_value(s[i + 1])
}

/// Whether `s` has the shape `DDDD-DD-DD` with ASCII digits `D`.
pub open spec fn has_date_shape(s: Seq<char>) -> bool {
    &&& s.len() == 10
    &&& s[4] == '-'
    &&& s[7] == '-'
    &&& forall|i: int| 0 <= i < 10 && i != 4 && i != 7 ==> is_digit(#[trigger] s[i])
}

/// The date that the text `s` names in `YYYY-MM-DD` form, if it is a valid
/// calendar date.
pub open spec fn parse_date_text(s: Seq<char>) -> Option<LegalDate> {
    if has_date_shape(s) {
        let year = 100 * two_digits(s, 0) + two_digits(s, 2);
        let month = two_digits(s, 5);
        let day = two_digits(s, 8);
        if is_valid_date(year, month, day) {
            Some(LegalDate { year: year as u16, month: month as u8, day: day as u8 })
        } else {
            None
        }
    } else {
        None
    }
}

/// The reason text for an invalid date, as [`LegalDate::validate`] reports it.
pub open spec fn invalid_date_reason(d: LegalDate) -> Seq<char> {
    if d.year == 0 {
        "年は1以上を指定してください"@
    } else if !(1 <= d.month <= 12) {
        "月は1〜12で指定してください"@
    } else if d.day == 0 {
        "日は1以上を指定してください"@
    } else {
        "指定された月の日数を超えています: max_day="@ + decimal(
            month_length(d.year as nat, d.month as nat),
        )
    }
}

fn digit_of(c: char) -> (r: u64)
    requires
        is_digit(c),
    ensures
        r == digit_value(c),
        r < 10,
{
    (c as u32 - '0' as u32) as u64
}

impl LegalDate {
    /// The date `year`-`month`-`day`.
    pub fn new(year: u16, month: u8, day: u8) -> (r: Self)
        ensures
            r.year == year,
            r.month == month,
            r.day == day,
    {
        LegalDate { year, month, day }
    }

    /// Gregorian leap year rule: divisible by 4, and not by 100 unless by 400.
    pub fn is_leap_year(year: u16) -> (r: bool)
        ensures
            r == is_leap(year as nat),
    {
        let y = year as u32;
        y % 4 == 0 && (y % 100 != 0 || y % 400 == 0)
    }

    /// The number of days in `month` of `year` (0 for an invalid month).
    pub fn days_in_month(year: u16, month: u8) -> (r: u8)
        ensures
            r == month_length(year as nat, month as nat),
    {
        match month {
            1 | 3 | 5 | 7 | 8 | 10 | 12 => 31,
            4 | 6 | 9 | 11 => 30,
            2 => {
                if Self::is_leap_year(year) {
                    29
                } else {
                    28
                }
            },
            _ => 0,
        }
    }

    /// Checks that the date is a real calendar date.
    pub fn validate(&self) -> (r: Result<(), InputError>)
        ensures
            r is Ok <==> is_valid_date(self.year as nat, self.month as nat, self.day as nat),
            r matches Err(e) ==> (e matches InputError::InvalidDate { date, reason } && date@
                == date_text(*self) && reason@ == invalid_date_reason(*self)),
    {
        if self.year == 0 {
            return Err(
                InputError::InvalidDate {
                    date: self.to_date_str(),
                    reason: String::from_str("年は1以上を指定してください"),
                },
            );
        }
        if !(1 <= self.month && self.month <= 12) {
            return Err(
                InputError::InvalidDate {
                    date: self.to_date_str(),
                    reason: String::from_str("月は1〜12で指定してください"),
                },
            );
        }
        if self.day == 0 {
            return Err(
                InputError::InvalidDate {
                    date: self.to_date_str(),
                    reason: String::from_str("日は1以上を指定してください"),
                },
            );
        }
        let max_day = Self::days_in_month(self.year, self.month);
        if self.day > max_day {
            let mut reason = String::from_str("指定された月の日数を超えています: max_day=");
            push_decimal(&mut reason, max_day as u64);
            return Err(InputError::InvalidDate { date: self.to_date_str(), reason });
        }
        Ok(())
    }

    /// The ISO 8601 text `YYYY-MM-DD` of the date.
    pub fn to_date_str(&self) -> (s: String)
        ensures
            s@ == date_text(*self),
    {
        let mut s = String::new();
        push_padded_decimal(&mut s, self.year as u64, 4);
        proof {
            reveal_strlit("-");
        }
        s.append("-");
        push_padded_decimal(&mut s, self.month as u64, 2);
        s.append("-");
        push_padded_decimal(&mut s, self.day as u64, 2);
        proof {
            assert(s@ =~= date_text(*self));
        }
        s
    }

    /// Parses the ISO 8601 text `YYYY-MM-DD`; `None` unless the text has that
    /// exact form and names a real calendar date.
    pub fn from_date_str(s: &str) -> (r: Option<Self>)
        ensures
            r == parse_date_text(s@),
    {
        let n = s.unicode_len();
        if n != 10 {
            return None;
        }
        let mut i: usize = 0;
        while i < 10
            invariant
                s@.len() == 10,
                0 <= i <= 10,
                forall|k: int|
                    0 <= k < i ==> (if k == 4 || k == 7 {
                        s@[k] == '-'
                    } else {
                        is_digit(s@[k])
                    }),
            decreases 10 - i,
        {
            let c = s.get_char(i);
            if i == 4 || i == 7 {
                if c != '-' {
                    return None;
                }
            } else if !('0' <= c && c <= '9') {
                return None;
            }
            i = i + 1;
        }
        assert(has_date_shape(s@));
        let year = (10 * digit_of(s.get_char(0)) + digit_of(s.get_char(1))) * 100 + 10 * digit_of(
            s.get_char(2),
        ) + digit_of(s.get_char(3));
        let month = 10 * digit_of(s.get_char(5)) + digit_of(s.get_char(6));
        let day = 10 * digit_of(s.get_char(8)) + digit_of(s.get_char(9));
        if year == 0 || !(1 <= month && month <= 12) {
            return None;
        }
        let max_day = Self::days_in_month(year as u16, month as u8);
        if day < 1 || day > max_day as u64 {
            return None;
        }
        Some(LegalDate { year: year as u16, month: month as u8, day: day as u8 })
    }

    /// The following day, carrying over month and year ends.
    pub fn next_day(&self) -> (r: Self)
        requires
            following_date(*self).0 <= u16::MAX,
        ensures
            (r.year as int, r.month as int, r.day as int) == following_date(*self),
    {
        let max_day = Self::days_in_month(self.year, self.month);
        if self.day < max_day {
            Self::new(self.year, self.month, self.day + 1)
        } else if self.month < 12 {
            Self::new(self.year, self.month + 1, 1)
        } else {
            Self::new(self.year + 1, 1, 1)
        }
    }
}

proof fn lemma_digit_char(k: nat)
    ensures
        is_digit(digit_char(k)),
        digit_value(digit_char(k)) == k % 10,
{
}

proof fn lemma_two_padded(n: nat)
    requires
        n < 100,
    ensures
        padded_decimal(n, 2) == seq![digit_char(n / 10), digit_char(n % 10)],
{
    reveal_with_fuel(zero_padded, 3);
    reveal_with_fuel(decimal_width, 3);
    reveal_with_fuel(decimal, 3);
    if n < 10 {
        assert(padded_decimal(n, 2) == zero_padded(n, 2));
        assert(zero_padded(n / 10 / 10, 0) =~= Seq::<char>::empty());
        assert(zero_padded(n, 2) =~= seq![digit_char(n / 10), digit_char(n % 10)]);
    } else {
        assert(decimal(n / 10) =~= seq![digit_char(n / 10)]);
        assert(padded_decimal(n, 2) =~= seq![digit_char(n / 10), digit_char(n % 10)]);
    }
}

proof fn lemma_four_padded(n: nat)
    requires
        n < 10000,
    ensures
        padded_decimal(n, 4) == seq![
            digit_char(n / 1000),
            digit_char(n / 100 % 10),
            digit_char(n / 10 % 10),
            digit_char(n % 10),
        ],
{
    reveal_with_fuel(zero_padded, 5);
    reveal_with_fuel(decimal_width, 5);
    reveal_with_fuel(decimal, 5);
    let expected = seq![
        digit_char(n / 1000),
        digit_char(n / 100 % 10),
        digit_char(n / 10 % 10),
        digit_char(n % 10),
    ];
    assert(n / 10 / 10 == n / 100);
    assert(n / 100 / 10 == n / 1000);
    assert(n / 1000 % 10 == n / 1000);
    assert(zero_padded(n / 1000 / 10, 0) =~= Seq::<char>::empty());
    if n >= 1000 {
        assert(decimal_width(n) == 4);
        assert(decimal(n / 1000) =~= seq![digit_char(n / 1000)]);
        assert(padded_decimal(n, 4) =~= expected);
    } else {
        assert(decimal_width(n) < 4);
        assert(zero_padded(n, 4) =~= expected);
    }
}

proof fn lemma_digits_recompose(n: nat)
    requires
        n < 10000,
    ensures
        100 * (10 * (n / 1000) + n / 100 % 10) + (10 * (n / 10 % 10) + n % 10) == n,
        n < 100 ==> 10 * (n / 10) + n % 10 == n,
{
    let n = n as int;
    vstd::arithmetic::div_mod::lemma_fundamental_div_mod(n, 10);
    vstd::arithmetic::div_mod::lemma_fundamental_div_mod(n / 10, 10);
    vstd::arithmetic::div_mod::lemma_fundamental_div_mod(n / 100, 10);
    vstd::arithmetic::div_mod::lemma_div_denominator(n, 10, 10);
    vstd::arithmetic::div_mod::lemma_div_denominator(n, 100, 10);
    assert(n / 100 / 10 < 10);
    vstd::arithmetic::div_mod::lemma_small_mod((n / 1000) as nat, 10);
}

/// Writing a valid date as text and parsing the text gives the date back,
/// for every year that fits in four digits.
#[verifier::spinoff_prover]
#[verifier::rlimit(40)]
pub proof fn lemma_date_text_roundtrip(d: LegalDate)
    requires
        is_valid_date(d.year as nat, d.month as nat, d.day as nat),
        d.year <= 9999,
    ensures
        parse_date_text(date_text(d)) == Some(d),
{
    let y = d.year as nat;
    let m = d.month as nat;
    let dd = d.day as nat;
    lemma_four_padded(y);
    lemma_two_padded(m);
    lemma_two_padded(dd);
    let t = date_text(d);
    assert(t.len() == 10);
    assert(t =~= seq![
        digit_char(y / 1000),
        digit_char(y / 100 % 10),
        digit_char(y / 10 % 10),
        digit_char(y % 10),
        '-',
        digit_char(m / 10),
        digit_char(m % 10),
        '-',
        digit_char(dd / 10),
        digit_char(dd % 10),
    ]);
    lemma_digit_char(y / 1000);
    lemma_digit_char(y / 100 % 10);
    lemma_digit_char(y / 10 % 10);
    lemma_digit_char(y % 10);
    lemma_digit_char(m / 10);
    lemma_digit_char(m % 10);
    lemma_digit_char(dd / 10);
    lemma_digit_char(dd % 10);
    assert(has_date_shape(t));
    lemma_digits_recompose(y);
    lemma_digits_recompose(m);
    lemma_digits_recompose(dd);
    assert(100 * two_digits(t, 0) + two_digits(t, 2) == y);
    assert(two_digits(t, 5) == m);
    assert(two_digits(t, 8) == dd);
}

/// The day after a valid date is again a valid date, and comes after it.
pub proof fn lemma_next_day_is_valid_and_later(d: LegalDate)
    requires
        is_valid_date(d.year as nat, d.month as nat, d.day as nat),
        following_date(d).0 <= u16::MAX,
    ensures
        ({
            let (y, m, dd) = following_date(d);
            let n = LegalDate { year: y as u16, month: m as u8, day: dd as u8 };
            &&& is_valid_date(y as nat, m as nat, dd as nat)
            &&& is_before(d, n)
        }),
{
}

impl From<(u16, u8, u8)> for LegalDate {
    /// The date of a `(year, month, day)` tuple.
    fn from(t: (u16, u8, u8)) -> (r: LegalDate) {
        LegalDate::new(t.0, t.1, t.2)
    }
}

impl FromSpecImpl<(u16, u8, u8)> for LegalDate {
    open spec fn obeys_from_spec() -> bool {
        true
    }

    open spec fn from_spec(t: (u16, u8, u8)) -> LegalDate {
        LegalDate { year: t.0, month: t.1, day: t.2 }
    }
}

} // verus!
