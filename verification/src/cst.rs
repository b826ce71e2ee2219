use vstd::prelude::*;

verus! {

/// The grammar rule that produced a node of the concrete syntax tree.
///
/// The grammar-driven parser tags every node it hands over with one of
/// these; the extractors dispatch on the tag and treat any shape the
/// grammar cannot produce as an internal-consistency fault.
#[derive(Clone, Copy, Debug, PartialEq, Eq, Structural)]
pub enum RuleKind {
    ValueLiteral,
    QuotedStringLiteral,
    BooleanLiteral,
    SignedInteger,
    SignedDecimal,
    DatetimeTzLiteral,
    DatetimeLiteral,
    DateLiteral,
    Sign,
    Plus,
    Minus,
    IntegerLiteral,
    DecimalLiteral,
    DateFragment,
    Time,
    Year,
    Month,
    Day,
    Hour,
    Minute,
    Second,
    SecondFraction,
    IanaTimezone,
    Iso8601TimezoneOffset,
}

/// A range of source positions, for diagnostics downstream.
#[derive(Clone, Copy, Debug, PartialEq, Eq, Structural)]
pub struct Span {
    pub begin: usize,
    pub end: usize,
}

/// One node of the concrete syntax tree: its rule, the exact source text it
/// matched, the span that text covers, and its children in source order.
///
/// Every value the extractors build copies text out of the node, so the tree
/// may be discarded once a literal has been produced.
#[derive(Debug, PartialEq, Eq)]
pub struct Node {
    pub rule: RuleKind,
    pub text: String,
    pub span: Span,
    pub children: Vec<Node>,
}

} // verus!
