use vstd::prelude::*;
use crate::cst::Span;

verus! {

/// A quoted string, kept verbatim with its enclosing quote characters;
/// unescaping belongs to a later stage.
#[derive(Clone, Debug, PartialEq, Eq)]
pub struct StringLiteral {
    pub value: String,
}

impl View for StringLiteral {
    type V = Seq<char>;

    open spec fn view(&self) -> Seq<char> {
        self.value@
    }
}

/// A boolean spelling, kept as raw text rather than normalized to a boolean
/// primitive at this layer.
#[derive(Clone, Debug, PartialEq, Eq)]
pub struct BooleanLiteral {
    pub value: String,
}

impl View for BooleanLiteral {
    type V = Seq<char>;

    open spec fn view(&self) -> Seq<char> {
        self.value@
    }
}

/// An unsigned digit sequence of arbitrary length, kept verbatim so that no
/// precision is lost before numeric resolution.
#[derive(Clone, Debug, PartialEq, Eq)]
pub struct IntegerLiteral {
    pub value: String,
}

impl View for IntegerLiteral {
    type V = Seq<char>;

    open spec fn view(&self) -> Seq<char> {
        self.value@
    }
}

/// An explicit sign token in front of a magnitude.
#[derive(Clone, Copy, Debug, PartialEq, Eq, Structural)]
pub enum Sign {
    Plus,
    Minus,
}

impl View for Sign {
    type V = Sign;

    open spec fn view(&self) -> Sign {
        *self
    }
}

/// An integer with an optional leading sign; an absent sign means implicitly
/// positive.
#[derive(Clone, Debug, PartialEq, Eq)]
pub struct SignedIntegerLiteral {
    pub sign: Option<Sign>,
    pub integral: String,
}

/// Mathematical model of a `SignedIntegerLiteral`.
pub struct SignedIntegerLiteralV {
    pub sign: Option<Sign>,
    pub integral: Seq<char>,
}

impl View for SignedIntegerLiteral {
    type V = SignedIntegerLiteralV;

    open spec fn view(&self) -> SignedIntegerLiteralV {
        SignedIntegerLiteralV { sign: self.sign, integral: self.integral@ }
    }
}

/// A decimal with an optional leading sign; the raw text keeps the decimal
/// point and every digit, trailing zeros included.
#[derive(Clone, Debug, PartialEq, Eq)]
pub struct SignedDecimalLiteral {
    pub sign: Option<Sign>,
    pub decimal: String,
}

/// Mathematical model of a `SignedDecimalLiteral`.
pub struct SignedDecimalLiteralV {
    pub sign: Option<Sign>,
    pub decimal: Seq<char>,
}

impl View for SignedDecimalLiteral {
    type V = SignedDecimalLiteralV;

    open spec fn view(&self) -> SignedDecimalLiteralV {
        SignedDecimalLiteralV { sign: self.sign, decimal: self.decimal@ }
    }
}

/// The three date components, each kept as raw digit text, in grammar order.
#[derive(Clone, Debug, PartialEq, Eq)]
pub struct DateFragment {
    pub year: String,
    pub month: String,
    pub day: String,
}

/// Mathematical model of a `DateFragment`.
pub struct DateFragmentV {
    pub year: Seq<char>,
    pub month: Seq<char>,
    pub day: Seq<char>,
}

impl View for DateFragment {
    type V = DateFragmentV;

    open spec fn view(&self) -> DateFragmentV {
        DateFragmentV { year: self.year@, month: self.month@, day: self.day@ }
    }
}

/// Hour and minute, always present, plus independently optional whole seconds
/// and sub-second fraction, each as raw digit text.
#[derive(Clone, Debug, PartialEq, Eq)]
pub struct TimeFragment {
    pub hour: String,
    pub minute: String,
    pub second: Option<String>,
    pub second_fraction: Option<String>,
}

/// Mathematical model of a `TimeFragment`.
pub struct TimeFragmentV {
    pub hour: Seq<char>,
    pub minute: Seq<char>,
    pub second: Option<Seq<char>>,
    pub second_fraction: Option<Seq<char>>,
}

impl View for TimeFragment {
    type V = TimeFragmentV;

    open spec fn view(&self) -> TimeFragmentV {
        TimeFragmentV {
            hour: self.hour@,
            minute: self.minute@,
            second: match self.second {
                Some(ref s) => Some(s@),
                None => None,
            },
            second_fraction: match self.second_fraction {
                Some(ref s) => Some(s@),
                None => None,
            },
        }
    }
}

/// A date-only literal.
#[derive(Clone, Debug, PartialEq, Eq)]
pub struct DateLiteral {
    pub date: DateFragment,
}

/// Mathematical model of a `DateLiteral`.
pub struct DateLiteralV {
    pub date: DateFragmentV,
}

impl View for DateLiteral {
    type V = DateLiteralV;

    open spec fn view(&self) -> DateLiteralV {
        DateLiteralV { date: self.date@ }
    }
}

/// A date-and-time literal without a timezone.
#[derive(Clone, Debug, PartialEq, Eq)]
pub struct DateTimeLiteral {
    pub date: DateFragment,
    pub time: TimeFragment,
}

/// Mathematical model of a `DateTimeLiteral`.
pub struct DateTimeLiteralV {
    pub date: DateFragmentV,
    pub time: TimeFragmentV,
}

impl View for DateTimeLiteral {
    type V = DateTimeLiteralV;

    open spec fn view(&self) -> DateTimeLiteralV {
        DateTimeLiteralV { date: self.date@, time: self.time@ }
    }
}

/// A timezone suffix: exactly one of the two encodings the grammar allows,
/// either an IANA zone name or an ISO 8601 numeric offset, kept verbatim.
#[derive(Clone, Debug, PartialEq, Eq)]
pub enum TimeZone {
    IANA(String),
    ISO(String),
}

/// Mathematical model of a `TimeZone`.
pub enum TimeZoneV {
    IANA(Seq<char>),
    ISO(Seq<char>),
}

impl View for TimeZone {
    type V = TimeZoneV;

    open spec fn view(&self) -> TimeZoneV {
        match *self {
            TimeZone::IANA(ref z) => TimeZoneV::IANA(z@),
            TimeZone::ISO(ref z) => TimeZoneV::ISO(z@),
        }
    }
}

/// A date-and-time literal with a timezone suffix.
#[derive(Clone, Debug, PartialEq, Eq)]
pub struct DateTimeTZLiteral {
    pub date: DateFragment,
    pub time: TimeFragment,
    pub timezone: TimeZone,
}

/// Mathematical model of a `DateTimeTZLiteral`.
pub struct DateTimeTZLiteralV {
    pub date: DateFragmentV,
    pub time: TimeFragmentV,
    pub timezone: TimeZoneV,
}

impl View for DateTimeTZLiteral {
    type V = DateTimeTZLiteralV;

    open spec fn view(&self) -> DateTimeTZLiteralV {
        DateTimeTZLiteralV { date: self.date@, time: self.time@, timezone: self.timezone@ }
    }
}

/// The tagged union over every literal kind the grammar can produce; exactly
/// one variant is active.
#[derive(Clone, Debug, PartialEq, Eq)]
pub enum ValueLiteral {
    String(StringLiteral),
    Boolean(BooleanLiteral),
    Integer(SignedIntegerLiteral),
    Decimal(SignedDecimalLiteral),
    DateTimeTz(DateTimeTZLiteral),
    DateTime(DateTimeLiteral),
    Date(DateLiteral),
}

/// Mathematical model of a `ValueLiteral`.
pub enum ValueLiteralV {
    String(Seq<char>),
    Boolean(Seq<char>),
    Integer(SignedIntegerLiteralV),
    Decimal(SignedDecimalLiteralV),
    DateTimeTz(DateTimeTZLiteralV),
    DateTime(DateTimeLiteralV),
    Date(DateLiteralV),
}

impl View for ValueLiteral {
    type V = ValueLiteralV;

    open spec fn view(&self) -> ValueLiteralV {
        match *self {
            ValueLiteral::String(ref v) => ValueLiteralV::String(v@),
            ValueLiteral::Boolean(ref v) => ValueLiteralV::Boolean(v@),
            ValueLiteral::Integer(ref v) => ValueLiteralV::Integer(v@),
            ValueLiteral::Decimal(ref v) => ValueLiteralV::Decimal(v@),
            ValueLiteral::DateTimeTz(ref v) => ValueLiteralV::DateTimeTz(v@),
            ValueLiteral::DateTime(ref v) => ValueLiteralV::DateTime(v@),
            ValueLiteral::Date(ref v) => ValueLiteralV::Date(v@),
        }
    }
}

/// A literal value together with the span of the source text it came from,
/// the sign and any timezone suffix included.
#[derive(Clone, Debug, PartialEq, Eq)]
pub struct Literal {
    pub span: Span,
    pub value: ValueLiteral,
}

/// Mathematical model of a `Literal`.
pub struct LiteralV {
    pub span: Span,
    pub value: ValueLiteralV,
}

impl View for Literal {
    type V = LiteralV;

    open spec fn view(&self) -> LiteralV {
        LiteralV { span: self.span, value: self.value@ }
    }
}

impl Literal {
    /// Wraps a literal value with the span of the node it was read from.
    pub fn new(span: Span, value: ValueLiteral) -> (r: Literal)
        ensures
            r@ == (LiteralV { span, value: value@ }),
    {
        Literal { span, value }
    }
}

} // verus!
