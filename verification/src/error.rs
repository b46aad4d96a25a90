use vstd::prelude::*;
use vstd::std_specs::convert::FromSpecImpl;

use crate::text::{decimal, push_decimal};

verus! {

/// Inconsistency in the statutory parameter data (registry JSON).
///
/// Detected when the data is loaded; the layer above may treat it as fatal.
#[derive(Debug)]
pub enum RegistryError {
    /// Two periods of validity overlap.
    PeriodOverlap { domain: String, from: String, until: String },
    /// A gap lies between two periods of validity.
    PeriodGap { domain: String, end: String, next_start: String },
    /// The data holds a floating-point value.
    FloatProhibited { path: String },
    /// The data holds a zero denominator.
    ZeroDenominator { path: String },
    /// A data file is missing.
    FileNotFound { path: String },
    /// A data file does not parse.
    ParseError { path: String, cause: String },
}

/// Invalid input given by the caller.
#[derive(Debug)]
pub enum InputError {
    /// A negative amount was given.
    NegativeAmount { value: i64 },
    /// The date lies outside every period that the statute data covers.
    DateOutOfRange { date: String },
    /// Two flags that exclude each other were given together.
    ConflictingFlags { flag_a: String, flag_b: String },
    /// An income deduction input is invalid.
    InvalidDeductionInput { field: String, reason: String },
    /// A withholding tax input is invalid.
    InvalidWithholdingInput { field: String, reason: String },
    /// A stamp tax input is invalid.
    InvalidStampTaxInput { field: String, reason: String },
    /// A date is not a valid calendar date.
    InvalidDate { date: String, reason: String },
    /// A zero denominator was given.
    ZeroDenominator,
}

/// Abnormal condition met while calculating.
#[derive(Debug)]
pub enum CalculationError {
    /// An integer overflow would occur at the named step.
    Overflow { step: String },
    /// The policy cannot be applied to this context.
    PolicyNotApplicable { reason: String },
}

/// The error type of the whole library.
#[derive(Debug)]
pub enum JLawError {
    Registry(RegistryError),
    Input(InputError),
    Calculation(CalculationError),
}

/// The overflow error of the named step.
pub open spec fn is_overflow(e: JLawError, step: Seq<char>) -> bool {
    e matches JLawError::Calculation(CalculationError::Overflow { step: s }) && s@ == step
}

/// The zero-denominator input error.
pub open spec fn is_zero_denominator(e: JLawError) -> bool {
    e matches JLawError::Input(InputError::ZeroDenominator)
}

/// The result is the overflow error of the named step.
pub open spec fn fails_with_overflow<T>(r: Result<T, JLawError>, step: Seq<char>) -> bool {
    r matches Err(e) && is_overflow(e, step)
}

/// The result is a "policy not applicable" error with the given reason.
pub open spec fn fails_not_applicable<T>(r: Result<T, JLawError>, reason: Seq<char>) -> bool {
    r matches Err(JLawError::Calculation(CalculationError::PolicyNotApplicable { reason: m }))
        && m@ == reason
}

/// The result is the zero-denominator input error.
pub open spec fn fails_zero_denominator<T>(r: Result<T, JLawError>) -> bool {
    r matches Err(e) && is_zero_denominator(e)
}

/// The failure a calculation is specified to end in, as a value of the
/// specification.
pub enum Failure {
    Overflow(Seq<char>),
    NotApplicable(Seq<char>),
    ZeroDenominator,
    InvalidDeductionInput(Seq<char>, Seq<char>),
    InvalidWithholdingInput(Seq<char>, Seq<char>),
    InvalidStampTaxInput(Seq<char>, Seq<char>),
    InvalidDate(Seq<char>, Seq<char>),
}

/// The error `e` is the failure `f`.
pub open spec fn error_is(e: JLawError, f: Failure) -> bool {
    match f {
        Failure::Overflow(step) => is_overflow(e, step),
        Failure::NotApplicable(reason) => e matches JLawError::Calculation(
            CalculationError::PolicyNotApplicable { reason: m },
        ) && m@ == reason,
        Failure::ZeroDenominator => is_zero_denominator(e),
        Failure::InvalidDeductionInput(field, reason) => e matches JLawError::Input(
            InputError::InvalidDeductionInput { field: f, reason: m },
        ) && f@ == field && m@ == reason,
        Failure::InvalidWithholdingInput(field, reason) => e matches JLawError::Input(
            InputError::InvalidWithholdingInput { field: f, reason: m },
        ) && f@ == field && m@ == reason,
        Failure::InvalidStampTaxInput(field, reason) => e matches JLawError::Input(
            InputError::InvalidStampTaxInput { field: f, reason: m },
        ) && f@ == field && m@ == reason,
        Failure::InvalidDate(date, reason) => e matches JLawError::Input(
            InputError::InvalidDate { date: d, reason: m },
        ) && d@ == date && m@ == reason,
    }
}

/// The result is the failure `f`.
pub open spec fn fails_as<T>(r: Result<T, JLawError>, f: Failure) -> bool {
    r matches Err(e) && error_is(e, f)
}

/// The input error result is the failure `f`.
pub open spec fn input_fails_as<T>(r: Result<T, InputError>, f: Failure) -> bool {
    r matches Err(e) && error_is(JLawError::Input(e), f)
}

/// The overflow error for the named step.
pub fn overflow(step: &str) -> (e: JLawError)
    ensures
        is_overflow(e, step@),
{
    JLawError::Calculation(CalculationError::Overflow { step: String::from_str(step) })
}

/// A "policy not applicable" error with the given reason.
pub fn not_applicable(reason: String) -> (e: JLawError)
    ensures
        e == JLawError::Calculation(CalculationError::PolicyNotApplicable { reason }),
{
    JLawError::Calculation(CalculationError::PolicyNotApplicable { reason })
}

/// The decimal notation of a signed integer.
pub open spec fn signed_decimal(v: int) -> Seq<char> {
    if v < 0 {
        seq!['-'] + decimal((-v) as nat)
    } else {
        decimal(v as nat)
    }
}

fn push_signed_decimal(s: &mut String, v: i64)
    ensures
        final(s)@ == old(s)@ + signed_decimal(v as int),
{
    if v < 0 {
        proof {
            reveal_strlit("-");
        }
        s.append("-");
        let magnitude: u64 = if v == i64::MIN {
            9223372036854775808u64
        } else {
            (0 - v) as u64
        };
        let ghost before = s@;
        push_decimal(s, magnitude);
        assert(s@ =~= old(s)@ + signed_decimal(v as int));
    } else {
        push_decimal(s, v as u64);
    }
}

impl RegistryError {
    /// The text of the message that describes the error.
    pub open spec fn message_text(&self) -> Seq<char> {
        match self {
            RegistryError::PeriodOverlap { domain, from, until } => "法令データに適用期間の重複があります: domain="@ + domain@ + ", from="@ + from@ + ", until="@ + until@,
            RegistryError::PeriodGap { domain, end, next_start } => "法令データに適用期間の空白があります: domain="@ + domain@ + ", end="@ + end@ + ", next_start="@ + next_start@,
            RegistryError::FloatProhibited { path } => "法令データに浮動小数点値が含まれています（整数または分数形式を使用してください）: path="@ + path@,
            RegistryError::ZeroDenominator { path } => "分母にゼロが含まれています: path="@ + path@,
            RegistryError::FileNotFound { path } => "JSONファイルが見つかりません: "@ + path@,
            RegistryError::ParseError { path, cause } => "JSONのパースに失敗しました: path="@ + path@ + ", cause="@ + cause@,
        }
    }

    /// The message that describes the error.
    pub fn message(&self) -> (m: String)
        ensures
            m@ == self.message_text(),
    {
        match self {
            RegistryError::PeriodOverlap { domain, from, until } => {
                let mut m = String::from_str("法令データに適用期間の重複があります: domain=");
                m.append(domain.as_str());
                m.append(", from=");
                m.append(from.as_str());
                m.append(", until=");
                m.append(until.as_str());
                m
            },
            RegistryError::PeriodGap { domain, end, next_start } => {
                let mut m = String::from_str("法令データに適用期間の空白があります: domain=");
                m.append(domain.as_str());
                m.append(", end=");
                m.append(end.as_str());
                m.append(", next_start=");
                m.append(next_start.as_str());
                m
            },
            RegistryError::FloatProhibited { path } => {
                let mut m = String::from_str(
                    "法令データに浮動小数点値が含まれています（整数または分数形式を使用してください）: path=",
                );
                m.append(path.as_str());
                m
            },
            RegistryError::ZeroDenominator { path } => {
                let mut m = String::from_str("分母にゼロが含まれています: path=");
                m.append(path.as_str());
                m
            },
            RegistryError::FileNotFound { path } => {
                let mut m = String::from_str("JSONファイルが見つかりません: ");
                m.append(path.as_str());
                m
            },
            RegistryError::ParseError { path, cause } => {
                let mut m = String::from_str("JSONのパースに失敗しました: path=");
                m.append(path.as_str());
                m.append(", cause=");
                m.append(cause.as_str());
                m
            },
        }
    }
}

impl InputError {
    /// The text of the message that describes the error.
    pub open spec fn message_text(&self) -> Seq<char> {
        match self {
            InputError::NegativeAmount { value } => "負の金額は無効です: value="@ + signed_decimal(*value as int),
            InputError::DateOutOfRange { date } => "指定した日付は法令の適用期間外です: date="@ + date@,
            InputError::ConflictingFlags { flag_a, flag_b } => "矛盾するフラグが同時に指定されています: "@ + flag_a@ + " と "@ + flag_b@,
            InputError::InvalidDeductionInput { field, reason } => "所得控除の入力が無効です: field="@ + field@ + ", reason="@ + reason@,
            InputError::InvalidWithholdingInput { field, reason } => "源泉徴収入力が無効です: field="@ + field@ + ", reason="@ + reason@,
            InputError::InvalidStampTaxInput { field, reason } => "印紙税の入力が無効です: field="@ + field@ + ", reason="@ + reason@,
            InputError::InvalidDate { date, reason } => "日付が無効です: date="@ + date@ + ", reason="@ + reason@,
            InputError::ZeroDenominator => "分母にゼロが指定されました"@,
        }
    }

    /// The message that describes the error.
    pub fn message(&self) -> (m: String)
        ensures
            m@ == self.message_text(),
    {
        match self {
            InputError::NegativeAmount { value } => {
                let mut m = String::from_str("負の金額は無効です: value=");
                push_signed_decimal(&mut m, *value);
                m
            },
            InputError::DateOutOfRange { date } => {
                let mut m = String::from_str("指定した日付は法令の適用期間外です: date=");
                m.append(date.as_str());
                m
            },
            InputError::ConflictingFlags { flag_a, flag_b } => {
                let mut m = String::from_str("矛盾するフラグが同時に指定されています: ");
                m.append(flag_a.as_str());
                m.append(" と ");
                m.append(flag_b.as_str());
                m
            },
            InputError::InvalidDeductionInput { field, reason } => {
                let mut m = String::from_str("所得控除の入力が無効です: field=");
                m.append(field.as_str());
                m.append(", reason=");
                m.append(reason.as_str());
                m
            },
            InputError::InvalidWithholdingInput { field, reason } => {
                let mut m = String::from_str("源泉徴収入力が無効です: field=");
                m.append(field.as_str());
                m.append(", reason=");
                m.append(reason.as_str());
                m
            },
            InputError::InvalidStampTaxInput { field, reason } => {
                let mut m = String::from_str("印紙税の入力が無効です: field=");
                m.append(field.as_str());
                m.append(", reason=");
                m.append(reason.as_str());
                m
            },
            InputError::InvalidDate { date, reason } => {
                let mut m = String::from_str("日付が無効です: date=");
                m.append(date.as_str());
                m.append(", reason=");
                m.append(reason.as_str());
                m
            },
            InputError::ZeroDenominator => String::from_str("分母にゼロが指定されました"),
        }
    }
}

impl CalculationError {
    /// The text of the message that describes the error.
    pub open spec fn message_text(&self) -> Seq<char> {
        match self {
            CalculationError::Overflow { step } => "計算中に整数オーバーフローが発生しました: step="@ + step@,
            CalculationError::PolicyNotApplicable { reason } => "このコンテキストにポリシーを適用できません: "@ + reason@,
        }
    }

    /// The message that describes the error.
    pub fn message(&self) -> (m: String)
        ensures
            m@ == self.message_text(),
    {
        match self {
            CalculationError::Overflow { step } => {
                let mut m = String::from_str("計算中に整数オーバーフローが発生しました: step=");
                m.append(step.as_str());
                m
            },
            CalculationError::PolicyNotApplicable { reason } => {
                let mut m = String::from_str("このコンテキストにポリシーを適用できません: ");
                m.append(reason.as_str());
                m
            },
        }
    }
}

impl JLawError {
    /// The message of the wrapped error.
    pub fn message(&self) -> (m: String)
        ensures
            m@ == match self {
                JLawError::Registry(e) => e.message_text(),
                JLawError::Input(e) => e.message_text(),
                JLawError::Calculation(e) => e.message_text(),
            },
    {
        match self {
            JLawError::Registry(e) => e.message(),
            JLawError::Input(e) => e.message(),
            JLawError::Calculation(e) => e.message(),
        }
    }
}

impl From<RegistryError> for JLawError {
    fn from(e: RegistryError) -> (r: JLawError) {
        JLawError::Registry(e)
    }
}

impl FromSpecImpl<RegistryError> for JLawError {
    open spec fn obeys_from_spec() -> bool {
        true
    }

    open spec fn from_spec(e: RegistryError) -> JLawError {
        JLawError::Registry(e)
    }
}

impl From<InputError> for JLawError {
    fn from(e: InputError) -> (r: JLawError) {
        JLawError::Input(e)
    }
}

impl FromSpecImpl<InputError> for JLawError {
    open spec fn obeys_from_spec() -> bool {
        true
    }

    open spec fn from_spec(e: InputError) -> JLawError {
        JLawError::Input(e)
    }
}

impl From<CalculationError> for JLawError {
    fn from(e: CalculationError) -> (r: JLawError) {
        JLawError::Calculation(e)
    }
}

impl FromSpecImpl<CalculationError> for JLawError {
    open spec fn obeys_from_spec() -> bool {
        true
    }

    open spec fn from_spec(e: CalculationError) -> JLawError {
        JLawError::Calculation(e)
    }
}

} // verus!
