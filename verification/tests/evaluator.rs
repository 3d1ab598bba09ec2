//! Tests that evaluate parsed trees numerically.  The tree walk mirrors the
//! driving program: literals become `f64` values and the operators follow
//! IEEE floating-point semantics.

use calculator::parser::parse;
use calculator::types::Expr;

fn num(s: &str) -> Expr {
    Expr::Num(s.as_bytes().to_vec())
}

fn evaluate(expr: &Expr) -> f64 {
    match expr {
        Expr::Num(v) => std::str::from_utf8(v)
            .ok()
            .and_then(|t| t.parse::<f64>().ok())
            .unwrap_or(f64::NAN),
        Expr::Add(a, b) => evaluate(a) + evaluate(b),
        Expr::Sub(a, b) => evaluate(a) - evaluate(b),
        Expr::Mul(a, b) => evaluate(a) * evaluate(b),
        Expr::Div(a, b) => evaluate(a) / evaluate(b),
        Expr::Exp(a, b) => evaluate(a).powf(evaluate(b)),
        Expr::Sin(a) => evaluate(a).sin(),
        Expr::Cos(a) => evaluate(a).cos(),
    }
}

#[test]
fn evaluate_enum_test() {
    let expr = num("1234");
    assert_eq!(evaluate(&expr), 1234.0);
}

#[test]
fn evaluate_eadd_test() {
    let expr = Expr::Add(Box::new(num("12")), Box::new(num("34")));
    assert_eq!(evaluate(&expr), 46.0);
}

#[test]
fn evaluate_easub_test() {
    let expr = Expr::Sub(Box::new(num("12")), Box::new(num("34")));
    assert_eq!(evaluate(&expr), -22.0);
}

#[test]
fn test_evaluate_nested_arithmetic_expression() {
    let expr = Expr::Add(
        Box::new(Expr::Mul(Box::new(num("1")), Box::new(num("2")))),
        Box::new(Expr::Div(
            Box::new(Expr::Exp(Box::new(num("6")), Box::new(num("2")))),
            Box::new(num("5")),
        )),
    );
    assert_eq!(evaluate(&expr), 9.2);
}

#[test]
fn literal_round_trip() {
    // a lone literal parses to its own leaf, and evaluates to itself
    for lit in ["0", "7", "1234", "3.25", "0.125", "12.", ".5"] {
        let (end, expr) = parse(lit).unwrap();
        assert_eq!(end, lit.len());
        assert_eq!(expr, num(lit));
        assert_eq!(evaluate(&expr), lit.parse::<f64>().unwrap());
    }
}

#[test]
fn left_associativity() {
    let (_, expr) = parse("12 - 34 + 15 - 9").unwrap();
    assert_eq!(evaluate(&expr), -16.0);
}

#[test]
fn right_associative_exponentiation() {
    let (_, expr) = parse("2^3^2").unwrap();
    assert_eq!(evaluate(&expr), 512.0);
    assert_ne!(evaluate(&expr), 64.0);
}

#[test]
fn operator_precedence() {
    let (_, expr) = parse("1 * 2 + 3 / 4 ^ 6").unwrap();
    assert_eq!(evaluate(&expr), 1.0 * 2.0 + 3.0 / 4096.0);
}

#[test]
fn parentheses_override_precedence() {
    let (_, expr) = parse("(1 + 2) * 3").unwrap();
    assert_eq!(evaluate(&expr), 9.0);
}

#[test]
fn function_application() {
    let (_, sin0) = parse("sin(0)").unwrap();
    assert_eq!(evaluate(&sin0), 0.0);
    let (_, cos0) = parse("cos(0)").unwrap();
    assert_eq!(evaluate(&cos0), 1.0);
}

#[test]
fn evaluation_is_pure() {
    let input = "(1 + 2) * 3 - 4 / 8 + 2^3^2*sin(1)*cos(2)";
    let (end, expr) = parse(input).unwrap();
    assert_eq!(end, input.len());
    let first = evaluate(&expr);
    let second = evaluate(&expr);
    assert_eq!(first, second);
}

#[test]
fn division_by_zero_follows_ieee() {
    let (_, expr) = parse("1 / 0").unwrap();
    assert_eq!(evaluate(&expr), f64::INFINITY);
}
