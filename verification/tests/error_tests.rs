use literal_ast::cst::{Node, RuleKind, Span};
use literal_ast::literal::{
    visit_date_fragment, visit_datetime_literal, visit_datetime_tz_literal, visit_integer_literal,
    visit_sign, visit_signed_decimal, visit_signed_integer, visit_time, visit_value_literal,
};

fn leaf(rule: RuleKind, text: &str) -> Node {
    Node { rule, text: text.to_string(), span: Span { begin: 0, end: 0 }, children: vec![] }
}

fn branch(rule: RuleKind, text: &str, children: Vec<Node>) -> Node {
    Node { rule, text: text.to_string(), span: Span { begin: 0, end: 0 }, children }
}

fn plus_sign() -> Node {
    branch(RuleKind::Sign, "+", vec![leaf(RuleKind::Plus, "+")])
}

fn date_fragment_node(year: &str, month: &str, day: &str) -> Node {
    let text = format!("{}-{}-{}", year, month, day);
    branch(
        RuleKind::DateFragment,
        &text,
        vec![leaf(RuleKind::Year, year), leaf(RuleKind::Month, month), leaf(RuleKind::Day, day)],
    )
}

fn hour_minute(hour: &str, minute: &str) -> Node {
    let text = format!("{}:{}", hour, minute);
    branch(RuleKind::Time, &text, vec![leaf(RuleKind::Hour, hour), leaf(RuleKind::Minute, minute)])
}

#[test]
fn dispatcher_rejects_unknown_child_kind() {
    let tree = branch(RuleKind::ValueLiteral, "2024", vec![leaf(RuleKind::Year, "2024")]);
    let err = visit_value_literal(&tree).unwrap_err();
    assert_eq!(err.input, "2024");
}

#[test]
fn dispatcher_rejects_wrong_root_rule() {
    let tree = branch(RuleKind::Time, "10:30", vec![leaf(RuleKind::BooleanLiteral, "true")]);
    let err = visit_value_literal(&tree).unwrap_err();
    assert_eq!(err.input, "10:30");
}

#[test]
fn dispatcher_rejects_childless_node() {
    let tree = leaf(RuleKind::ValueLiteral, "7");
    let err = visit_value_literal(&tree).unwrap_err();
    assert_eq!(err.input, "7");
}

#[test]
fn dispatcher_rejects_residual_child() {
    let tree = branch(
        RuleKind::ValueLiteral,
        "true false",
        vec![leaf(RuleKind::BooleanLiteral, "true"), leaf(RuleKind::BooleanLiteral, "false")],
    );
    let err = visit_value_literal(&tree).unwrap_err();
    assert_eq!(err.input, "true false");
}

#[test]
fn sign_rejects_foreign_token() {
    let tree = branch(RuleKind::Sign, "*", vec![leaf(RuleKind::Year, "*")]);
    let err = visit_sign(&tree).unwrap_err();
    assert_eq!(err.input, "*");
}

#[test]
fn sign_rejects_wrong_rule() {
    let err = visit_sign(&leaf(RuleKind::IntegerLiteral, "7")).unwrap_err();
    assert_eq!(err.input, "7");
}

#[test]
fn integer_literal_rejects_wrong_rule() {
    let err = visit_integer_literal(&leaf(RuleKind::DecimalLiteral, "1.5")).unwrap_err();
    assert_eq!(err.input, "1.5");
}

#[test]
fn signed_integer_rejects_missing_magnitude() {
    let tree = branch(RuleKind::SignedInteger, "+", vec![plus_sign()]);
    let err = visit_signed_integer(&tree).unwrap_err();
    assert_eq!(err.input, "+");
}

#[test]
fn signed_integer_rejects_wrong_magnitude() {
    let tree = branch(
        RuleKind::SignedInteger,
        "+1.5",
        vec![plus_sign(), leaf(RuleKind::DecimalLiteral, "1.5")],
    );
    let err = visit_signed_integer(&tree).unwrap_err();
    assert_eq!(err.input, "1.5");
}

#[test]
fn signed_integer_rejects_foreign_first_child() {
    let tree = branch(RuleKind::SignedInteger, "1.5", vec![leaf(RuleKind::DecimalLiteral, "1.5")]);
    let err = visit_signed_integer(&tree).unwrap_err();
    assert_eq!(err.input, "1.5");
}

#[test]
fn signed_integer_rejects_residual_child() {
    let tree = branch(
        RuleKind::SignedInteger,
        "7 8",
        vec![leaf(RuleKind::IntegerLiteral, "7"), leaf(RuleKind::IntegerLiteral, "8")],
    );
    let err = visit_signed_integer(&tree).unwrap_err();
    assert_eq!(err.input, "7 8");
}

#[test]
fn signed_decimal_rejects_wrong_magnitude() {
    let tree = branch(
        RuleKind::SignedDecimal,
        "+7",
        vec![plus_sign(), leaf(RuleKind::IntegerLiteral, "7")],
    );
    let err = visit_signed_decimal(&tree).unwrap_err();
    assert_eq!(err.input, "7");
}

#[test]
fn signed_decimal_rejects_residual_child() {
    let tree = branch(
        RuleKind::SignedDecimal,
        "+1.5 2.5",
        vec![plus_sign(), leaf(RuleKind::DecimalLiteral, "1.5"), leaf(RuleKind::DecimalLiteral, "2.5")],
    );
    let err = visit_signed_decimal(&tree).unwrap_err();
    assert_eq!(err.input, "+1.5 2.5");
}

#[test]
fn date_fragment_rejects_wrong_order() {
    let tree = branch(
        RuleKind::DateFragment,
        "01-2024-15",
        vec![leaf(RuleKind::Month, "01"), leaf(RuleKind::Year, "2024"), leaf(RuleKind::Day, "15")],
    );
    let err = visit_date_fragment(&tree).unwrap_err();
    assert_eq!(err.input, "01");
}

#[test]
fn date_fragment_rejects_missing_day() {
    let tree = branch(
        RuleKind::DateFragment,
        "2024-01",
        vec![leaf(RuleKind::Year, "2024"), leaf(RuleKind::Month, "01")],
    );
    let err = visit_date_fragment(&tree).unwrap_err();
    assert_eq!(err.input, "2024-01");
}

#[test]
fn date_fragment_rejects_residual_child() {
    let tree = branch(
        RuleKind::DateFragment,
        "2024-01-15-16",
        vec![
            leaf(RuleKind::Year, "2024"),
            leaf(RuleKind::Month, "01"),
            leaf(RuleKind::Day, "15"),
            leaf(RuleKind::Day, "16"),
        ],
    );
    let err = visit_date_fragment(&tree).unwrap_err();
    assert_eq!(err.input, "2024-01-15-16");
}

#[test]
fn time_rejects_missing_minute() {
    let tree = branch(RuleKind::Time, "10", vec![leaf(RuleKind::Hour, "10")]);
    let err = visit_time(&tree).unwrap_err();
    assert_eq!(err.input, "10");
}

#[test]
fn time_rejects_residual_child() {
    let tree = branch(
        RuleKind::Time,
        "10:30:2024",
        vec![leaf(RuleKind::Hour, "10"), leaf(RuleKind::Minute, "30"), leaf(RuleKind::Year, "2024")],
    );
    let err = visit_time(&tree).unwrap_err();
    assert_eq!(err.input, "10:30:2024");
}

#[test]
fn datetime_rejects_missing_time() {
    let tree = branch(
        RuleKind::DatetimeLiteral,
        "2024-01-15",
        vec![date_fragment_node("2024", "01", "15")],
    );
    let err = visit_datetime_literal(&tree).unwrap_err();
    assert_eq!(err.input, "2024-01-15");
}

#[test]
fn datetime_tz_rejects_foreign_timezone() {
    let tree = branch(
        RuleKind::DatetimeTzLiteral,
        "2024-01-15T10:30Z7",
        vec![
            date_fragment_node("2024", "01", "15"),
            hour_minute("10", "30"),
            leaf(RuleKind::IntegerLiteral, "7"),
        ],
    );
    let err = visit_datetime_tz_literal(&tree).unwrap_err();
    assert_eq!(err.input, "7");
}

#[test]
fn datetime_tz_rejects_missing_timezone() {
    let tree = branch(
        RuleKind::DatetimeTzLiteral,
        "2024-01-15T10:30",
        vec![date_fragment_node("2024", "01", "15"), hour_minute("10", "30")],
    );
    let err = visit_datetime_tz_literal(&tree).unwrap_err();
    assert_eq!(err.input, "2024-01-15T10:30");
}
