use vstd::prelude::*;
use crate::cst::{Node, RuleKind};
use crate::error::{result_view, IllegalGrammar};
use crate::literal::{
    spec_date_fragment, spec_datetime_tz_literal, spec_integer_literal, spec_sign,
    spec_signed_decimal, spec_signed_integer, spec_time, spec_value_literal,
};
use crate::value::{DateFragmentV, Literal, LiteralV, Sign, TimeZoneV};

verus! {

/// Round-trip fidelity: for any integer-literal node, whatever its digit
/// sequence and however long, extraction returns exactly the node's matched
/// text — no digit added, removed, or reformatted.
pub proof fn lemma_integer_round_trip(n: Node)
    requires
        n.rule == RuleKind::IntegerLiteral,
    ensures
        spec_integer_literal(n) == Ok::<Seq<char>, Seq<char>>(n.text@),
{
}

/// Sign composition: in a successfully composed signed integer, the sign is
/// present exactly when the first child is a sign node, in which case the
/// sign comes from that child and the digits from the second child; with no
/// sign child the sign is absent and the digits come from the first child.
pub proof fn lemma_sign_composition(n: Node)
    requires
        spec_signed_integer(n) is Ok,
    ensures
        spec_signed_integer(n)->Ok_0.sign is Some <==> n.children@[0].rule == RuleKind::Sign,
        spec_signed_integer(n)->Ok_0.sign matches Some(s) ==> spec_sign(n.children@[0])
            == Ok::<Sign, Seq<char>>(s) && spec_signed_integer(n)->Ok_0.integral
            == n.children@[1].text@,
        spec_signed_integer(n)->Ok_0.sign is None ==> spec_signed_integer(n)->Ok_0.integral
            == n.children@[0].text@,
{
}

/// Decimal precision preservation: in a successfully composed signed decimal,
/// the decimal text is the magnitude child's matched text verbatim — decimal
/// point and trailing zeros included — and the sign mirrors a leading sign
/// child exactly as for signed integers.
pub proof fn lemma_decimal_precision(n: Node)
    requires
        spec_signed_decimal(n) is Ok,
    ensures
        spec_signed_decimal(n)->Ok_0.sign is Some <==> n.children@[0].rule == RuleKind::Sign,
        spec_signed_decimal(n)->Ok_0.sign matches Some(s) ==> spec_sign(n.children@[0])
            == Ok::<Sign, Seq<char>>(s) && spec_signed_decimal(n)->Ok_0.decimal
            == n.children@[1].text@,
        spec_signed_decimal(n)->Ok_0.sign is None ==> spec_signed_decimal(n)->Ok_0.decimal
            == n.children@[0].text@,
{
}

/// Date fragment decomposition: a successfully composed date fragment comes
/// from exactly three children and takes year, month, and day from them in
/// that fixed order, each verbatim.
pub proof fn lemma_date_fragment_decomposition(n: Node)
    requires
        spec_date_fragment(n) is Ok,
    ensures
        n.children@.len() == 3,
        spec_date_fragment(n)->Ok_0 == (DateFragmentV {
            year: n.children@[0].text@,
            month: n.children@[1].text@,
            day: n.children@[2].text@,
        }),
{
}

/// Time optionals: in a successfully composed time fragment, hour and minute
/// come from the two required children; whole seconds are present exactly
/// when a third second child exists, and the sub-second fraction is present
/// exactly when a second-fraction child follows whatever came before it.
pub proof fn lemma_time_optionals(n: Node)
    requires
        spec_time(n) is Ok,
    ensures
        spec_time(n)->Ok_0.hour == n.children@[0].text@,
        spec_time(n)->Ok_0.minute == n.children@[1].text@,
        spec_time(n)->Ok_0.second is Some <==> (n.children@.len() > 2 && n.children@[2].rule
            == RuleKind::Second),
        spec_time(n)->Ok_0.second matches Some(s) ==> s == n.children@[2].text@,
        spec_time(n)->Ok_0.second is Some && spec_time(n)->Ok_0.second_fraction is Some
            ==> n.children@.len() == 4 && spec_time(n)->Ok_0.second_fraction == Some(
            n.children@[3].text@,
        ),
        spec_time(n)->Ok_0.second is None && spec_time(n)->Ok_0.second_fraction is Some
            ==> n.children@.len() == 3 && spec_time(n)->Ok_0.second_fraction == Some(
            n.children@[2].text@,
        ),
        spec_time(n)->Ok_0.second is None && spec_time(n)->Ok_0.second_fraction is None
            ==> n.children@.len() == 2,
{
}

/// Timezone variant exclusivity: a successfully composed date-time-with-
/// timezone literal holds exactly one timezone variant, picked by the third
/// child's rule — an IANA zone name never yields an ISO offset and an ISO
/// offset never yields an IANA name — and the zone text is copied verbatim.
pub proof fn lemma_timezone_exclusive(n: Node)
    requires
        spec_datetime_tz_literal(n) is Ok,
    ensures
        n.children@.len() == 3,
        spec_datetime_tz_literal(n)->Ok_0.timezone is IANA <==> n.children@[2].rule
            == RuleKind::IanaTimezone,
        spec_datetime_tz_literal(n)->Ok_0.timezone is ISO <==> n.children@[2].rule
            == RuleKind::Iso8601TimezoneOffset,
        !(spec_datetime_tz_literal(n)->Ok_0.timezone is IANA && spec_datetime_tz_literal(
            n,
        )->Ok_0.timezone is ISO),
        spec_datetime_tz_literal(n)->Ok_0.timezone matches TimeZoneV::IANA(z) ==> z
            == n.children@[2].text@,
        spec_datetime_tz_literal(n)->Ok_0.timezone matches TimeZoneV::ISO(z) ==> z
            == n.children@[2].text@,
{
}

/// Span coverage: every successfully extracted literal carries the full
/// value-literal node's own span, the one that covers the whole literal text
/// including any leading sign or trailing timezone suffix.
pub proof fn lemma_span_coverage(n: Node)
    requires
        spec_value_literal(n) is Ok,
    ensures
        spec_value_literal(n)->Ok_0.span == n.span,
{
}

/// Dispatch totality: for a value-literal node with its single child, each of
/// the seven recognized child rules yields the correspondingly tagged variant
/// and no other, and any child rule outside the seven always yields the
/// fault, carrying that child's text — never a silently wrong variant.
pub proof fn lemma_dispatch_totality(n: Node)
    requires
        n.rule == RuleKind::ValueLiteral,
        n.children@.len() == 1,
    ensures
        spec_value_literal(n) is Ok ==> (spec_value_literal(n)->Ok_0.value is String
            <==> n.children@[0].rule == RuleKind::QuotedStringLiteral),
        spec_value_literal(n) is Ok ==> (spec_value_literal(n)->Ok_0.value is Boolean
            <==> n.children@[0].rule == RuleKind::BooleanLiteral),
        spec_value_literal(n) is Ok ==> (spec_value_literal(n)->Ok_0.value is Integer
            <==> n.children@[0].rule == RuleKind::SignedInteger),
        spec_value_literal(n) is Ok ==> (spec_value_literal(n)->Ok_0.value is Decimal
            <==> n.children@[0].rule == RuleKind::SignedDecimal),
        spec_value_literal(n) is Ok ==> (spec_value_literal(n)->Ok_0.value is DateTimeTz
            <==> n.children@[0].rule == RuleKind::DatetimeTzLiteral),
        spec_value_literal(n) is Ok ==> (spec_value_literal(n)->Ok_0.value is DateTime
            <==> n.children@[0].rule == RuleKind::DatetimeLiteral),
        spec_value_literal(n) is Ok ==> (spec_value_literal(n)->Ok_0.value is Date
            <==> n.children@[0].rule == RuleKind::DateLiteral),
        n.children@[0].rule != RuleKind::QuotedStringLiteral && n.children@[0].rule
            != RuleKind::BooleanLiteral && n.children@[0].rule != RuleKind::SignedInteger
            && n.children@[0].rule != RuleKind::SignedDecimal && n.children@[0].rule
            != RuleKind::DatetimeTzLiteral && n.children@[0].rule != RuleKind::DatetimeLiteral
            && n.children@[0].rule != RuleKind::DateLiteral ==> spec_value_literal(n)
            == Err::<LiteralV, Seq<char>>(n.children@[0].text@),
{
}

/// Idempotence of extraction: extraction is a pure function of the subtree,
/// so any two results that meet `visit_value_literal`'s contract on the same
/// immutable node are structurally equal.
pub proof fn lemma_extraction_idempotent(
    n: Node,
    r1: Result<Literal, IllegalGrammar>,
    r2: Result<Literal, IllegalGrammar>,
)
    requires
        result_view(r1) == spec_value_literal(n),
        result_view(r2) == spec_value_literal(n),
    ensures
        result_view(r1) == result_view(r2),
{
}

} // verus!
