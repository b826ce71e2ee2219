use vstd::prelude::*;
use crate::cst::{Node, RuleKind};
use crate::error::{result_view, IllegalGrammar};
use crate::value::{
    BooleanLiteral, DateFragment, DateFragmentV, DateLiteral, DateLiteralV, DateTimeLiteral,
    DateTimeLiteralV, DateTimeTZLiteral, DateTimeTZLiteralV, IntegerLiteral, Literal, LiteralV, Sign,
    SignedDecimalLiteral, SignedDecimalLiteralV, SignedIntegerLiteral, SignedIntegerLiteralV,
    StringLiteral, TimeFragment, TimeFragmentV, TimeZone, TimeZoneV, ValueLiteral, ValueLiteralV,
};

verus! {

/// What sign extraction returns: the node must be a sign node with exactly
/// one child, a plus or a minus token; any other shape is a fault carrying
/// the offending node's text.
pub open spec fn spec_sign(n: Node) -> Result<Sign, Seq<char>> {
    if n.rule != RuleKind::Sign || n.children@.len() != 1 {
        Err(n.text@)
    } else if n.children@[0].rule == RuleKind::Plus {
        Ok(Sign::Plus)
    } else if n.children@[0].rule == RuleKind::Minus {
        Ok(Sign::Minus)
    } else {
        Err(n.children@[0].text@)
    }
}

/// What integer-literal extraction returns: the node's matched text, copied
/// verbatim.
pub open spec fn spec_integer_literal(n: Node) -> Result<Seq<char>, Seq<char>> {
    if n.rule == RuleKind::IntegerLiteral {
        Ok(n.text@)
    } else {
        Err(n.text@)
    }
}

/// What quoted-string extraction returns: the node's matched text, the
/// enclosing quote characters included.
pub open spec fn spec_quoted_string_literal(n: Node) -> Result<Seq<char>, Seq<char>> {
    if n.rule == RuleKind::QuotedStringLiteral {
        Ok(n.text@)
    } else {
        Err(n.text@)
    }
}

/// What signed-integer composition returns: an optional sign child followed
/// by a required integer-literal child, or an integer-literal child alone,
/// with no residual children either way.
pub open spec fn spec_signed_integer(n: Node) -> Result<SignedIntegerLiteralV, Seq<char>> {
    if n.rule != RuleKind::SignedInteger || n.children@.len() == 0 {
        Err(n.text@)
    } else if n.children@[0].rule == RuleKind::Sign {
        match spec_sign(n.children@[0]) {
            Ok(sign) => {
                if n.children@.len() < 2 {
                    Err(n.text@)
                } else if n.children@[1].rule != RuleKind::IntegerLiteral {
                    Err(n.children@[1].text@)
                } else if n.children@.len() != 2 {
                    Err(n.text@)
                } else {
                    Ok(SignedIntegerLiteralV { sign: Some(sign), integral: n.children@[1].text@ })
                }
            },
            Err(t) => Err(t),
        }
    } else if n.children@[0].rule == RuleKind::IntegerLiteral {
        if n.children@.len() != 1 {
            Err(n.text@)
        } else {
            Ok(SignedIntegerLiteralV { sign: None, integral: n.children@[0].text@ })
        }
    } else {
        Err(n.children@[0].text@)
    }
}

/// What signed-decimal composition returns: like the signed integer, but the
/// magnitude child is a decimal literal whose text keeps the decimal point
/// and every digit.
pub open spec fn spec_signed_decimal(n: Node) -> Result<SignedDecimalLiteralV, Seq<char>> {
    if n.rule != RuleKind::SignedDecimal || n.children@.len() == 0 {
        Err(n.text@)
    } else if n.children@[0].rule == RuleKind::Sign {
        match spec_sign(n.children@[0]) {
            Ok(sign) => {
                if n.children@.len() < 2 {
                    Err(n.text@)
                } else if n.children@[1].rule != RuleKind::DecimalLiteral {
                    Err(n.children@[1].text@)
                } else if n.children@.len() != 2 {
                    Err(n.text@)
                } else {
                    Ok(SignedDecimalLiteralV { sign: Some(sign), decimal: n.children@[1].text@ })
                }
            },
            Err(t) => Err(t),
        }
    } else if n.children@[0].rule == RuleKind::DecimalLiteral {
        if n.children@.len() != 1 {
            Err(n.text@)
        } else {
            Ok(SignedDecimalLiteralV { sign: None, decimal: n.children@[0].text@ })
        }
    } else {
        Err(n.children@[0].text@)
    }
}

/// What date-fragment composition returns: exactly three children — year,
/// month, day — in fixed grammar order, each copied as raw digit text.
pub open spec fn spec_date_fragment(n: Node) -> Result<DateFragmentV, Seq<char>> {
    if n.rule != RuleKind::DateFragment {
        Err(n.text@)
    } else if n.children@.len() < 1 {
        Err(n.text@)
    } else if n.children@[0].rule != RuleKind::Year {
        Err(n.children@[0].text@)
    } else if n.children@.len() < 2 {
        Err(n.text@)
    } else if n.children@[1].rule != RuleKind::Month {
        Err(n.children@[1].text@)
    } else if n.children@.len() < 3 {
        Err(n.text@)
    } else if n.children@[2].rule != RuleKind::Day {
        Err(n.children@[2].text@)
    } else if n.children@.len() != 3 {
        Err(n.text@)
    } else {
        Ok(
            DateFragmentV {
                year: n.children@[0].text@,
                month: n.children@[1].text@,
                day: n.children@[2].text@,
            },
        )
    }
}

/// What time-fragment composition returns: required hour and minute children,
/// then an optional second child and an optional second-fraction child, each
/// taken only when present, with no residual children afterwards. The two
/// optionals are independent: this mirrors the grammar, which is relied on
/// never to emit a fraction without seconds.
pub open spec fn spec_time(n: Node) -> Result<TimeFragmentV, Seq<char>> {
    if n.rule != RuleKind::Time {
        Err(n.text@)
    } else if n.children@.len() < 1 {
        Err(n.text@)
    } else if n.children@[0].rule != RuleKind::Hour {
        Err(n.children@[0].text@)
    } else if n.children@.len() < 2 {
        Err(n.text@)
    } else if n.children@[1].rule != RuleKind::Minute {
        Err(n.children@[1].text@)
    } else {
        let has_second = n.children@.len() > 2 && n.children@[2].rule == RuleKind::Second;
        let after_second: int = if has_second {
            3
        } else {
            2
        };
        let has_fraction = n.children@.len() > after_second && n.children@[after_second].rule
            == RuleKind::SecondFraction;
        let arity: int = if has_fraction {
            after_second + 1
        } else {
            after_second
        };
        if n.children@.len() != arity {
            Err(n.text@)
        } else {
            Ok(
                TimeFragmentV {
                    hour: n.children@[0].text@,
                    minute: n.children@[1].text@,
                    second: if has_second {
                        Some(n.children@[2].text@)
                    } else {
                        None
                    },
                    second_fraction: if has_fraction {
                        Some(n.children@[after_second].text@)
                    } else {
                        None
                    },
                },
            )
        }
    }
}

/// What date-literal composition returns: the single child is a date
/// fragment.
pub open spec fn spec_date_literal(n: Node) -> Result<DateLiteralV, Seq<char>> {
    if n.rule != RuleKind::DateLiteral || n.children@.len() != 1 {
        Err(n.text@)
    } else {
        match spec_date_fragment(n.children@[0]) {
            Ok(date) => Ok(DateLiteralV { date }),
            Err(t) => Err(t),
        }
    }
}

/// What date-time composition returns: a date fragment then a time fragment,
/// in fixed order, with no residual children.
pub open spec fn spec_datetime_literal(n: Node) -> Result<DateTimeLiteralV, Seq<char>> {
    if n.rule != RuleKind::DatetimeLiteral || n.children@.len() == 0 {
        Err(n.text@)
    } else {
        match spec_date_fragment(n.children@[0]) {
            Err(t) => Err(t),
            Ok(date) => {
                if n.children@.len() < 2 {
                    Err(n.text@)
                } else {
                    match spec_time(n.children@[1]) {
                        Err(t) => Err(t),
                        Ok(time) => {
                            if n.children@.len() != 2 {
                                Err(n.text@)
                            } else {
                                Ok(DateTimeLiteralV { date, time })
                            }
                        },
                    }
                }
            },
        }
    }
}

/// What date-time-with-timezone composition returns: a date fragment, a time
/// fragment, then exactly one timezone child — an IANA zone name or an ISO
/// 8601 offset, copied verbatim under the matching tag — with no residual
/// children.
pub open spec fn spec_datetime_tz_literal(n: Node) -> Result<DateTimeTZLiteralV, Seq<char>> {
    if n.rule != RuleKind::DatetimeTzLiteral || n.children@.len() == 0 {
        Err(n.text@)
    } else {
        match spec_date_fragment(n.children@[0]) {
            Err(t) => Err(t),
            Ok(date) => {
                if n.children@.len() < 2 {
                    Err(n.text@)
                } else {
                    match spec_time(n.children@[1]) {
                        Err(t) => Err(t),
                        Ok(time) => {
                            if n.children@.len() < 3 {
                                Err(n.text@)
                            } else if n.children@[2].rule == RuleKind::IanaTimezone {
                                if n.children@.len() != 3 {
                                    Err(n.text@)
                                } else {
                                    Ok(
                                        DateTimeTZLiteralV {
                                            date,
                                            time,
                                            timezone: TimeZoneV::IANA(n.children@[2].text@),
                                        },
                                    )
                                }
                            } else if n.children@[2].rule == RuleKind::Iso8601TimezoneOffset {
                                if n.children@.len() != 3 {
                                    Err(n.text@)
                                } else {
                                    Ok(
                                        DateTimeTZLiteralV {
                                            date,
                                            time,
                                            timezone: TimeZoneV::ISO(n.children@[2].text@),
                                        },
                                    )
                                }
                            } else {
                                Err(n.children@[2].text@)
                            }
                        },
                    }
                }
            },
        }
    }
}

/// What top-level dispatch returns: the value-literal node has exactly one
/// child, whose rule picks the variant — quoted string, boolean, signed
/// integer, signed decimal, date-time with timezone, date-time, or date —
/// and the produced literal carries the value-literal node's own span. Any
/// child rule outside the seven is a fault carrying the child's text.
pub open spec fn spec_value_literal(n: Node) -> Result<LiteralV, Seq<char>> {
    if n.rule != RuleKind::ValueLiteral || n.children@.len() != 1 {
        Err(n.text@)
    } else {
        let child = n.children@[0];
        let value: Result<ValueLiteralV, Seq<char>> = if child.rule
            == RuleKind::QuotedStringLiteral {
            match spec_quoted_string_literal(child) {
                Ok(v) => Ok(ValueLiteralV::String(v)),
                Err(t) => Err(t),
            }
        } else if child.rule == RuleKind::BooleanLiteral {
            Ok(ValueLiteralV::Boolean(child.text@))
        } else if child.rule == RuleKind::SignedInteger {
            match spec_signed_integer(child) {
                Ok(v) => Ok(ValueLiteralV::Integer(v)),
                Err(t) => Err(t),
            }
        } else if child.rule == RuleKind::SignedDecimal {
            match spec_signed_decimal(child) {
                Ok(v) => Ok(ValueLiteralV::Decimal(v)),
                Err(t) => Err(t),
            }
        } else if child.rule == RuleKind::DatetimeTzLiteral {
            match spec_datetime_tz_literal(child) {
                Ok(v) => Ok(ValueLiteralV::DateTimeTz(v)),
                Err(t) => Err(t),
            }
        } else if child.rule == RuleKind::DatetimeLiteral {
            match spec_datetime_literal(child) {
                Ok(v) => Ok(ValueLiteralV::DateTime(v)),
                Err(t) => Err(t),
            }
        } else if child.rule == RuleKind::DateLiteral {
            match spec_date_literal(child) {
                Ok(v) => Ok(ValueLiteralV::Date(v)),
                Err(t) => Err(t),
            }
        } else {
            Err(child.text@)
        };
        match value {
            Ok(v) => Ok(LiteralV { span: n.span, value: v }),
            Err(t) => Err(t),
        }
    }
}

/// Reads a sign node: its single child is a plus or a minus token.
pub fn visit_sign(node: &Node) -> (r: Result<Sign, IllegalGrammar>)
    ensures
        result_view(r) == spec_sign(*node),
{
    if node.rule != RuleKind::Sign || node.children.len() != 1 {
        return Err(IllegalGrammar { input: node.text.clone() });
    }
    let child = &node.children[0];
    if child.rule == RuleKind::Plus {
        Ok(Sign::Plus)
    } else if child.rule == RuleKind::Minus {
        Ok(Sign::Minus)
    } else {
        Err(IllegalGrammar { input: child.text.clone() })
    }
}

/// Reads an integer-literal node: the digit sequence is the node's matched
/// text, with no digit added, removed, or reformatted.
pub fn visit_integer_literal(node: &Node) -> (r: Result<IntegerLiteral, IllegalGrammar>)
    ensures
        result_view(r) == spec_integer_literal(*node),
{
    if node.rule == RuleKind::IntegerLiteral {
        Ok(IntegerLiteral { value: node.text.clone() })
    } else {
        Err(IllegalGrammar { input: node.text.clone() })
    }
}

/// Reads a quoted-string node: the text is copied verbatim, quotes included;
/// delimiter stripping and unescaping are deferred to later stages.
pub fn visit_quoted_string_literal(node: &Node) -> (r: Result<StringLiteral, IllegalGrammar>)
    ensures
        result_view(r) == spec_quoted_string_literal(*node),
{
    if node.rule == RuleKind::QuotedStringLiteral {
        Ok(StringLiteral { value: node.text.clone() })
    } else {
        Err(IllegalGrammar { input: node.text.clone() })
    }
}

/// Composes a signed integer: an optional sign child, then the required
/// integer-literal child; a residual child after the fixed arity is a fault.
pub fn visit_signed_integer(node: &Node) -> (r: Result<SignedIntegerLiteral, IllegalGrammar>)
    ensures
        result_view(r) == spec_signed_integer(*node),
{
    if node.rule != RuleKind::SignedInteger || node.children.len() == 0 {
        return Err(IllegalGrammar { input: node.text.clone() });
    }
    let first = &node.children[0];
    if first.rule == RuleKind::Sign {
        let sign = match visit_sign(first) {
            Ok(sign) => sign,
            Err(e) => {
                return Err(e);
            },
        };
        if node.children.len() < 2 {
            return Err(IllegalGrammar { input: node.text.clone() });
        }
        let magnitude = &node.children[1];
        if magnitude.rule != RuleKind::IntegerLiteral {
            return Err(IllegalGrammar { input: magnitude.text.clone() });
        }
        if node.children.len() != 2 {
            return Err(IllegalGrammar { input: node.text.clone() });
        }
        Ok(SignedIntegerLiteral { sign: Some(sign), integral: magnitude.text.clone() })
    } else if first.rule == RuleKind::IntegerLiteral {
        if node.children.len() != 1 {
            return Err(IllegalGrammar { input: node.text.clone() });
        }
        Ok(SignedIntegerLiteral { sign: None, integral: first.text.clone() })
    } else {
        Err(IllegalGrammar { input: first.text.clone() })
    }
}

/// Composes a signed decimal: an optional sign child, then the required
/// decimal-literal child whose raw text keeps the decimal point and every
/// digit; a residual child after the fixed arity is a fault.
pub fn visit_signed_decimal(node: &Node) -> (r: Result<SignedDecimalLiteral, IllegalGrammar>)
    ensures
        result_view(r) == spec_signed_decimal(*node),
{
    if node.rule != RuleKind::SignedDecimal || node.children.len() == 0 {
        return Err(IllegalGrammar { input: node.text.clone() });
    }
    let first = &node.children[0];
    if first.rule == RuleKind::Sign {
        let sign = match visit_sign(first) {
            Ok(sign) => sign,
            Err(e) => {
                return Err(e);
            },
        };
        if node.children.len() < 2 {
            return Err(IllegalGrammar { input: node.text.clone() });
        }
        let magnitude = &node.children[1];
        if magnitude.rule != RuleKind::DecimalLiteral {
            return Err(IllegalGrammar { input: magnitude.text.clone() });
        }
        if node.children.len() != 2 {
            return Err(IllegalGrammar { input: node.text.clone() });
        }
        Ok(SignedDecimalLiteral { sign: Some(sign), decimal: magnitude.text.clone() })
    } else if first.rule == RuleKind::DecimalLiteral {
        if node.children.len() != 1 {
            return Err(IllegalGrammar { input: node.text.clone() });
        }
        Ok(SignedDecimalLiteral { sign: None, decimal: first.text.clone() })
    } else {
        Err(IllegalGrammar { input: first.text.clone() })
    }
}

/// Composes a date fragment: exactly three children — year, month, day — in
/// fixed order; calendar legality is not checked at this layer.
pub fn visit_date_fragment(node: &Node) -> (r: Result<DateFragment, IllegalGrammar>)
    ensures
        result_view(r) == spec_date_fragment(*node),
{
    if node.rule != RuleKind::DateFragment {
        return Err(IllegalGrammar { input: node.text.clone() });
    }
    if node.children.len() < 1 {
        return Err(IllegalGrammar { input: node.text.clone() });
    }
    let year = &node.children[0];
    if year.rule != RuleKind::Year {
        return Err(IllegalGrammar { input: year.text.clone() });
    }
    if node.children.len() < 2 {
        return Err(IllegalGrammar { input: node.text.clone() });
    }
    let month = &node.children[1];
    if month.rule != RuleKind::Month {
        return Err(IllegalGrammar { input: month.text.clone() });
    }
    if node.children.len() < 3 {
        return Err(IllegalGrammar { input: node.text.clone() });
    }
    let day = &node.children[2];
    if day.rule != RuleKind::Day {
        return Err(IllegalGrammar { input: day.text.clone() });
    }
    if node.children.len() != 3 {
        return Err(IllegalGrammar { input: node.text.clone() });
    }
    Ok(DateFragment { year: year.text.clone(), month: month.text.clone(), day: day.text.clone() })
}

/// Composes a time fragment: hour and minute are required; whole seconds and
/// a sub-second fraction are each taken only when present; a residual child
/// afterwards is a fault.
pub fn visit_time(node: &Node) -> (r: Result<TimeFragment, IllegalGrammar>)
    ensures
        result_view(r) == spec_time(*node),
{
    if node.rule != RuleKind::Time {
        return Err(IllegalGrammar { input: node.text.clone() });
    }
    if node.children.len() < 1 {
        return Err(IllegalGrammar { input: node.text.clone() });
    }
    let hour = &node.children[0];
    if hour.rule != RuleKind::Hour {
        return Err(IllegalGrammar { input: hour.text.clone() });
    }
    if node.children.len() < 2 {
        return Err(IllegalGrammar { input: node.text.clone() });
    }
    let minute = &node.children[1];
    if minute.rule != RuleKind::Minute {
        return Err(IllegalGrammar { input: minute.text.clone() });
    }
    let has_second = node.children.len() > 2 && node.children[2].rule == RuleKind::Second;
    let after_second: usize = if has_second {
        3
    } else {
        2
    };
    let has_fraction = node.children.len() > after_second && node.children[after_second].rule
        == RuleKind::SecondFraction;
    let arity: usize = if has_fraction {
        after_second + 1
    } else {
        after_second
    };
    if node.children.len() != arity {
        return Err(IllegalGrammar { input: node.text.clone() });
    }
    let second = if has_second {
        Some(node.children[2].text.clone())
    } else {
        None
    };
    let second_fraction = if has_fraction {
        Some(node.children[after_second].text.clone())
    } else {
        None
    };
    Ok(TimeFragment { hour: hour.text.clone(), minute: minute.text.clone(), second, second_fraction })
}

/// Composes a date-only literal from its single date-fragment child.
pub fn visit_date_literal(node: &Node) -> (r: Result<DateLiteral, IllegalGrammar>)
    ensures
        result_view(r) == spec_date_literal(*node),
{
    if node.rule != RuleKind::DateLiteral || node.children.len() != 1 {
        return Err(IllegalGrammar { input: node.text.clone() });
    }
    let date = match visit_date_fragment(&node.children[0]) {
        Ok(date) => date,
        Err(e) => {
            return Err(e);
        },
    };
    Ok(DateLiteral { date })
}

/// Composes a date-time literal: a date fragment then a time fragment, in
/// that fixed order; a residual child is a fault.
pub fn visit_datetime_literal(node: &Node) -> (r: Result<DateTimeLiteral, IllegalGrammar>)
    ensures
        result_view(r) == spec_datetime_literal(*node),
{
    if node.rule != RuleKind::DatetimeLiteral || node.children.len() == 0 {
        return Err(IllegalGrammar { input: node.text.clone() });
    }
    let date = match visit_date_fragment(&node.children[0]) {
        Ok(date) => date,
        Err(e) => {
            return Err(e);
        },
    };
    if node.children.len() < 2 {
        return Err(IllegalGrammar { input: node.text.clone() });
    }
    let time = match visit_time(&node.children[1]) {
        Ok(time) => time,
        Err(e) => {
            return Err(e);
        },
    };
    if node.children.len() != 2 {
        return Err(IllegalGrammar { input: node.text.clone() });
    }
    Ok(DateTimeLiteral { date, time })
}

/// Composes a date-time-with-timezone literal: a date fragment, a time
/// fragment, then exactly one timezone child, which is either an IANA zone
/// name or an ISO 8601 offset — never both, never anything else.
pub fn visit_datetime_tz_literal(node: &Node) -> (r: Result<DateTimeTZLiteral, IllegalGrammar>)
    ensures
        result_view(r) == spec_datetime_tz_literal(*node),
{
    if node.rule != RuleKind::DatetimeTzLiteral || node.children.len() == 0 {
        return Err(IllegalGrammar { input: node.text.clone() });
    }
    let date = match visit_date_fragment(&node.children[0]) {
        Ok(date) => date,
        Err(e) => {
            return Err(e);
        },
    };
    if node.children.len() < 2 {
        return Err(IllegalGrammar { input: node.text.clone() });
    }
    let time = match visit_time(&node.children[1]) {
        Ok(time) => time,
        Err(e) => {
            return Err(e);
        },
    };
    if node.children.len() < 3 {
        return Err(IllegalGrammar { input: node.text.clone() });
    }
    let tz = &node.children[2];
    let timezone = if tz.rule == RuleKind::IanaTimezone {
        TimeZone::IANA(tz.text.clone())
    } else if tz.rule == RuleKind::Iso8601TimezoneOffset {
        TimeZone::ISO(tz.text.clone())
    } else {
        return Err(IllegalGrammar { input: tz.text.clone() });
    };
    if node.children.len() != 3 {
        return Err(IllegalGrammar { input: node.text.clone() });
    }
    Ok(DateTimeTZLiteral { date, time, timezone })
}

/// The top-level entry point: dispatches on the single child of a
/// value-literal node and wraps the extracted value with the node's span.
pub fn visit_value_literal(node: &Node) -> (r: Result<Literal, IllegalGrammar>)
    ensures
        result_view(r) == spec_value_literal(*node),
{
    if node.rule != RuleKind::ValueLiteral || node.children.len() != 1 {
        return Err(IllegalGrammar { input: node.text.clone() });
    }
    let span = node.span;
    let child = &node.children[0];
    let value = if child.rule == RuleKind::QuotedStringLiteral {
        match visit_quoted_string_literal(child) {
            Ok(v) => ValueLiteral::String(v),
            Err(e) => {
                return Err(e);
            },
        }
    } else if child.rule == RuleKind::BooleanLiteral {
        ValueLiteral::Boolean(BooleanLiteral { value: child.text.clone() })
    } else if child.rule == RuleKind::SignedInteger {
        match visit_signed_integer(child) {
            Ok(v) => ValueLiteral::Integer(v),
            Err(e) => {
                return Err(e);
            },
        }
    } else if child.rule == RuleKind::SignedDecimal {
        match visit_signed_decimal(child) {
            Ok(v) => ValueLiteral::Decimal(v),
            Err(e) => {
                return Err(e);
            },
        }
    } else if child.rule == RuleKind::DatetimeTzLiteral {
        match visit_datetime_tz_literal(child) {
            Ok(v) => ValueLiteral::DateTimeTz(v),
            Err(e) => {
                return Err(e);
            },
        }
    } else if child.rule == RuleKind::DatetimeLiteral {
        match visit_datetime_literal(child) {
            Ok(v) => ValueLiteral::DateTime(v),
            Err(e) => {
                return Err(e);
            },
        }
    } else if child.rule == RuleKind::DateLiteral {
        match visit_date_literal(child) {
            Ok(v) => ValueLiteral::Date(v),
            Err(e) => {
                return Err(e);
            },
        }
    } else {
        return Err(IllegalGrammar { input: child.text.clone() });
    };
    Ok(Literal::new(span, value))
}

} // verus!
