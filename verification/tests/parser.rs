//! Tests of the parser: tree shapes, remainders, failures, and whole-line
//! judgement.

use calculator::parser::parse;
use calculator::parser::parse_line;
use calculator::types::Expr;
use calculator::types::LineOutcome;

fn num(s: &str) -> Expr {
    Expr::Num(s.as_bytes().to_vec())
}

#[test]
fn parse_add_statement() {
    let parsed = parse("12 + 34");
    assert_eq!(parsed, Ok((7, Expr::Add(Box::new(num("12")), Box::new(num("34"))))));
}

#[test]
fn parse_subtract_statement() {
    let parsed = parse("12 - 34");
    assert_eq!(parsed, Ok((7, Expr::Sub(Box::new(num("12")), Box::new(num("34"))))));
}

#[test]
fn parse_nested_add_sub_statements() {
    let parsed = parse("12 - 34 + 15 - 9");
    assert_eq!(
        parsed,
        Ok((
            16,
            Expr::Sub(
                Box::new(Expr::Add(
                    Box::new(Expr::Sub(Box::new(num("12")), Box::new(num("34")))),
                    Box::new(num("15"))
                )),
                Box::new(num("9"))
            )
        ))
    );
}

#[test]
fn test_parse_multi_level_expression() {
    let parsed = parse("1 * 2 + 3 / 4 ^ 6");
    let expected = Expr::Add(
        Box::new(Expr::Mul(Box::new(num("1")), Box::new(num("2")))),
        Box::new(Expr::Div(
            Box::new(num("3")),
            Box::new(Expr::Exp(Box::new(num("4")), Box::new(num("6")))),
        )),
    );
    assert_eq!(parsed, Ok((17, expected)));
}

#[test]
fn test_parse_expression_with_parantheses() {
    let parsed = parse("(1 + 2) * 3");
    let expected = Expr::Mul(
        Box::new(Expr::Add(Box::new(num("1")), Box::new(num("2")))),
        Box::new(num("3")),
    );
    assert_eq!(parsed, Ok((11, expected)));
}

#[test]
fn test_sin() {
    let parsed = parse("sin(4)");
    let expected = Expr::Sin(Box::new(num("4")));
    assert_eq!(parsed, Ok((6, expected)));
}

#[test]
fn test_decimals() {
    let parsed = parse("1.1 + 1.2");
    assert_eq!(parsed, Ok((9, Expr::Add(Box::new(num("1.1")), Box::new(num("1.2"))))));
}

#[test]
fn whitespace_tolerance() {
    let spaced = parse("  12   +   34  ");
    let tight = parse("12+34");
    let expected = Expr::Add(Box::new(num("12")), Box::new(num("34")));
    let (spaced_end, spaced_expr) = spaced.unwrap();
    let (tight_end, tight_expr) = tight.unwrap();
    assert_eq!(spaced_end, "  12   +   34  ".len());
    assert_eq!(tight_end, "12+34".len());
    assert_eq!(spaced_expr, expected);
    assert_eq!(tight_expr, expected);
}

#[test]
fn malformed_input_is_a_failure() {
    assert!(parse("(1 + 2").is_err());
    assert_eq!(parse_line("(1 + 2"), LineOutcome::ParseFailure(parse("(1 + 2").unwrap_err()));
    // the grammar stops before the dangling operator; the line as a whole
    // is rejected for its trailing text
    assert_eq!(parse("12 + ").map(|p| p.0), Ok(3));
    assert_eq!(parse_line("12 + "), LineOutcome::Trailing(3));
    assert!(parse("").is_err());
    assert!(parse("sin()").is_err());
    assert!(parse(".").is_err());
    assert!(parse("foo").is_err());
}

#[test]
fn empty_line_is_a_no_op() {
    assert_eq!(parse_line(""), LineOutcome::Empty);
    assert_ne!(parse_line("1"), LineOutcome::Empty);
}

#[test]
fn full_line_value() {
    assert_eq!(parse_line("2 + 3"), LineOutcome::Value(Expr::Add(Box::new(num("2")), Box::new(num("3")))));
}

#[test]
fn function_names_take_no_leading_whitespace() {
    // whitespace is tolerated around numbers and parentheses, not before a
    // function name
    assert!(parse(" sin(0)").is_err());
    assert!(parse("cos(0)").is_ok());
}

#[test]
fn caret_is_right_associative_in_the_tree() {
    let parsed = parse("2^3^2");
    let expected = Expr::Exp(
        Box::new(num("2")),
        Box::new(Expr::Exp(Box::new(num("3")), Box::new(num("2")))),
    );
    assert_eq!(parsed, Ok((5, expected)));
}

#[test]
fn trailing_dot_and_leading_dot_literals() {
    assert_eq!(parse("12."), Ok((3, num("12."))));
    assert_eq!(parse(".5"), Ok((2, num(".5"))));
}
