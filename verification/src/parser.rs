//! The parser: a recursive-descent reading of the grammar in
//! [`crate::grammar`], one executable function per rule, each proved to
//! return exactly what its rule denotes.
//!
//! Every function takes the input bytes and a start position and returns
//! the position just past what it consumed together with the tree it built,
//! or a [`ParseError`] when its rule does not match there.  Alternatives
//! are tried in a fixed order and the first success is kept; the
//! left-associative layers fold trailing `(operator, operand)` pairs onto
//! an accumulator, and exponentiation recurses on its right operand.

use vstd::prelude::*;
use vstd::slice::slice_subrange;
use vstd::slice::slice_to_vec;
use vstd::string::StringSliceAdditionalSpecFns;

use crate::grammar::apply_op;
use crate::grammar::digits_end;
use crate::grammar::CARET;
use crate::grammar::DIGIT0;
use crate::grammar::DIGIT9;
use crate::grammar::DOT;
use crate::grammar::LOW_C;
use crate::grammar::LOW_I;
use crate::grammar::LOW_N;
use crate::grammar::LOW_O;
use crate::grammar::LOW_S;
use crate::grammar::LPAREN;
use crate::grammar::MINUS;
use crate::grammar::PLUS;
use crate::grammar::RPAREN;
use crate::grammar::SLASH;
use crate::grammar::SPACE;
use crate::grammar::STAR;
use crate::grammar::TAB;
use crate::grammar::skip_ws;
use crate::grammar::spec_expr;
use crate::grammar::spec_expr_rest;
use crate::grammar::spec_factor;
use crate::grammar::spec_function;
use crate::grammar::spec_function_cos;
use crate::grammar::spec_function_sin;
use crate::grammar::spec_number;
use crate::grammar::spec_operation;
use crate::grammar::spec_parens;
use crate::grammar::spec_parse;
use crate::grammar::spec_term;
use crate::grammar::spec_term_rest;
use crate::types::Expr;
use crate::types::LineOutcome;
use crate::types::ParseError;

verus! {

/// Advances past spaces and tabs.
fn skip_spaces(s: &[u8], i: usize) -> (r: usize)
    requires
        i <= s@.len(),
    ensures
        r == skip_ws(s@, i as int),
        i <= r <= s@.len(),
{
    let mut j = i;
    while j < s.len() && (s[j] == SPACE || s[j] == TAB)
        invariant
            i <= j <= s@.len(),
            skip_ws(s@, i as int) == skip_ws(s@, j as int),
        decreases s@.len() - j,
    {
        j = j + 1;
    }
    j
}

/// Advances past decimal digits.
fn scan_digits(s: &[u8], i: usize) -> (r: usize)
    requires
        i <= s@.len(),
    ensures
        r == digits_end(s@, i as int),
        i <= r <= s@.len(),
{
    let mut j = i;
    while j < s.len() && DIGIT0 <= s[j] && s[j] <= DIGIT9
        invariant
            i <= j <= s@.len(),
            digits_end(s@, i as int) == digits_end(s@, j as int),
        decreases s@.len() - j,
    {
        j = j + 1;
    }
    j
}

/// The `number` rule: a literal between optional whitespace, kept as the
/// bytes it was written with.
fn parse_number(s: &[u8], i: usize) -> (r: Result<(usize, Expr), ParseError>)
    requires
        i <= s@.len(),
    ensures
        (match r {
            Ok(p) => spec_number(s@, i as int) == Some((p.0 as int, p.1.model())) && i < p.0
                && p.0 <= s@.len(),
            Err(e) => spec_number(s@, i as int) is None && e.pos <= s@.len(),
        }),
{
    let j = skip_spaces(s, i);
    let k = scan_digits(s, j);
    if k > j {
        let m = if k < s.len() && s[k] == DOT {
            scan_digits(s, k + 1)
        } else {
            k
        };
        let end = skip_spaces(s, m);
        let lit = slice_to_vec(slice_subrange(s, j, m));
        Ok((end, Expr::Num(lit)))
    } else if j < s.len() && s[j] == DOT {
        let m = scan_digits(s, j + 1);
        if m > j + 1 {
            let end = skip_spaces(s, m);
            let lit = slice_to_vec(slice_subrange(s, j, m));
            Ok((end, Expr::Num(lit)))
        } else {
            Err(ParseError { pos: j })
        }
    } else {
        Err(ParseError { pos: j })
    }
}

/// The tree for one binary operator byte applied to two parsed operands.
fn parse_op(op: u8, expr1: Expr, expr2: Expr) -> (r: Expr)
    requires
        op == PLUS || op == MINUS || op == STAR || op == SLASH || op == CARET,
    ensures
        r.model() == apply_op(op, expr1.model(), expr2.model()),
{
    if op == PLUS {
        Expr::Add(Box::new(expr1), Box::new(expr2))
    } else if op == MINUS {
        Expr::Sub(Box::new(expr1), Box::new(expr2))
    } else if op == STAR {
        Expr::Mul(Box::new(expr1), Box::new(expr2))
    } else if op == SLASH {
        Expr::Div(Box::new(expr1), Box::new(expr2))
    } else {
        Expr::Exp(Box::new(expr1), Box::new(expr2))
    }
}

/// The `parens` rule: whitespace, `(`, an expression, `)`, whitespace.
fn parse_parens(s: &[u8], i: usize) -> (r: Result<(usize, Expr), ParseError>)
    requires
        i <= s@.len(),
    ensures
        (match r {
            Ok(p) => spec_parens(s@, i as int) == Some((p.0 as int, p.1.model())) && i < p.0
                && p.0 <= s@.len(),
            Err(e) => spec_parens(s@, i as int) is None && e.pos <= s@.len(),
        }),
    decreases s@.len() - i, 2int,
{
    let j = skip_spaces(s, i);
    if j < s.len() && s[j] == LPAREN {
        match parse_math_expr(s, j + 1) {
            Ok((k, e)) => {
                if k < s.len() && s[k] == RPAREN {
                    let end = skip_spaces(s, k + 1);
                    Ok((end, e))
                } else {
                    Err(ParseError { pos: k })
                }
            },
            Err(pe) => Err(pe),
        }
    } else {
        Err(ParseError { pos: j })
    }
}

/// The `sin` alternative of the `function` rule.
fn parse_function_sin(s: &[u8], i: usize) -> (r: Result<(usize, Expr), ParseError>)
    requires
        i <= s@.len(),
    ensures
        (match r {
            Ok(p) => spec_function_sin(s@, i as int) == Some((p.0 as int, p.1.model())) && i < p.0
                && p.0 <= s@.len(),
            Err(e) => spec_function_sin(s@, i as int) is None && e.pos <= s@.len(),
        }),
    decreases s@.len() - i, 1int,
{
    if s.len() - i >= 4 && s[i] == LOW_S && s[i + 1] == LOW_I && s[i + 2] == LOW_N && s[i + 3] == LPAREN
        {
        match parse_math_expr(s, i + 4) {
            Ok((k, e)) => {
                if k < s.len() && s[k] == RPAREN {
                    Ok((k + 1, Expr::Sin(Box::new(e))))
                } else {
                    Err(ParseError { pos: k })
                }
            },
            Err(pe) => Err(pe),
        }
    } else {
        Err(ParseError { pos: i })
    }
}

/// The `cos` alternative of the `function` rule.
fn parse_function_cos(s: &[u8], i: usize) -> (r: Result<(usize, Expr), ParseError>)
    requires
        i <= s@.len(),
    ensures
        (match r {
            Ok(p) => spec_function_cos(s@, i as int) == Some((p.0 as int, p.1.model())) && i < p.0
                && p.0 <= s@.len(),
            Err(e) => spec_function_cos(s@, i as int) is None && e.pos <= s@.len(),
        }),
    decreases s@.len() - i, 1int,
{
    if s.len() - i >= 4 && s[i] == LOW_C && s[i + 1] == LOW_O && s[i + 2] == LOW_S && s[i + 3] == LPAREN
        {
        match parse_math_expr(s, i + 4) {
            Ok((k, e)) => {
                if k < s.len() && s[k] == RPAREN {
                    Ok((k + 1, Expr::Cos(Box::new(e))))
                } else {
                    Err(ParseError { pos: k })
                }
            },
            Err(pe) => Err(pe),
        }
    } else {
        Err(ParseError { pos: i })
    }
}

/// The `function` rule: `sin`, then `cos`, first match wins.
fn parse_function(s: &[u8], i: usize) -> (r: Result<(usize, Expr), ParseError>)
    requires
        i <= s@.len(),
    ensures
        (match r {
            Ok(p) => spec_function(s@, i as int) == Some((p.0 as int, p.1.model())) && i < p.0
                && p.0 <= s@.len(),
            Err(e) => spec_function(s@, i as int) is None && e.pos <= s@.len(),
        }),
    decreases s@.len() - i, 2int,
{
    match parse_function_sin(s, i) {
        Ok(r) => Ok(r),
        Err(_) => parse_function_cos(s, i),
    }
}

/// The `operation` rule: a parenthesized expression, a number, or a
/// function call, tried in that order.
fn parse_operation(s: &[u8], i: usize) -> (r: Result<(usize, Expr), ParseError>)
    requires
        i <= s@.len(),
    ensures
        (match r {
            Ok(p) => spec_operation(s@, i as int) == Some((p.0 as int, p.1.model())) && i < p.0
                && p.0 <= s@.len(),
            Err(e) => spec_operation(s@, i as int) is None && e.pos <= s@.len(),
        }),
    decreases s@.len() - i, 3int,
{
    match parse_parens(s, i) {
        Ok(r) => Ok(r),
        Err(_) => match parse_number(s, i) {
            Ok(r) => Ok(r),
            Err(_) => parse_function(s, i),
        },
    }
}

/// The `factor` rule: an operation, optionally raised to a factor; the
/// recursive right operand makes `^` right-associative.
fn parse_factor(s: &[u8], i: usize) -> (r: Result<(usize, Expr), ParseError>)
    requires
        i <= s@.len(),
    ensures
        (match r {
            Ok(p) => spec_factor(s@, i as int) == Some((p.0 as int, p.1.model())) && i < p.0
                && p.0 <= s@.len(),
            Err(e) => spec_factor(s@, i as int) is None && e.pos <= s@.len(),
        }),
    decreases s@.len() - i, 4int,
{
    match parse_operation(s, i) {
        Ok((j, e)) => {
            if j < s.len() && s[j] == CARET {
                match parse_factor(s, j + 1) {
                    Ok((k, rhs)) => Ok((k, Expr::Exp(Box::new(e), Box::new(rhs)))),
                    Err(_) => Ok((j, e)),
                }
            } else {
                Ok((j, e))
            }
        },
        Err(pe) => Err(pe),
    }
}

/// The operator chain of the `term` rule: folds `('*' | '/') factor` pairs
/// onto `acc` from the left, stopping before the first pair that does not
/// parse.
fn parse_term_rest(s: &[u8], i: usize, acc: Expr) -> (r: Result<(usize, Expr), ParseError>)
    requires
        i <= s@.len(),
    ensures
        (match r {
            Ok(p) => spec_term_rest(s@, i as int, acc.model()) == Some((p.0 as int, p.1.model()))
                && i <= p.0 && p.0 <= s@.len(),
            Err(e) => spec_term_rest(s@, i as int, acc.model()) is None && e.pos <= s@.len(),
        }),
    decreases s@.len() - i, 5int,
{
    if i < s.len() && (s[i] == STAR || s[i] == SLASH) {
        let op = s[i];
        match parse_factor(s, i + 1) {
            Ok((j, e)) => parse_term_rest(s, j, parse_op(op, acc, e)),
            Err(_) => Ok((i, acc)),
        }
    } else {
        Ok((i, acc))
    }
}

/// The `term` rule: a factor, then its operator chain.
fn parse_term(s: &[u8], i: usize) -> (r: Result<(usize, Expr), ParseError>)
    requires
        i <= s@.len(),
    ensures
        (match r {
            Ok(p) => spec_term(s@, i as int) == Some((p.0 as int, p.1.model())) && i < p.0
                && p.0 <= s@.len(),
            Err(e) => spec_term(s@, i as int) is None && e.pos <= s@.len(),
        }),
    decreases s@.len() - i, 6int,
{
    match parse_factor(s, i) {
        Ok((j, e)) => parse_term_rest(s, j, e),
        Err(pe) => Err(pe),
    }
}

/// The operator chain of the `expr` rule: folds `('+' | '-') term` pairs
/// onto `acc` from the left.
fn parse_expr_rest(s: &[u8], i: usize, acc: Expr) -> (r: Result<(usize, Expr), ParseError>)
    requires
        i <= s@.len(),
    ensures
        (match r {
            Ok(p) => spec_expr_rest(s@, i as int, acc.model()) == Some((p.0 as int, p.1.model()))
                && i <= p.0 && p.0 <= s@.len(),
            Err(e) => spec_expr_rest(s@, i as int, acc.model()) is None && e.pos <= s@.len(),
        }),
    decreases s@.len() - i, 7int,
{
    if i < s.len() && (s[i] == PLUS || s[i] == MINUS) {
        let op = s[i];
        match parse_term(s, i + 1) {
            Ok((j, e)) => parse_expr_rest(s, j, parse_op(op, acc, e)),
            Err(_) => Ok((i, acc)),
        }
    } else {
        Ok((i, acc))
    }
}

/// The `expr` rule: a term, then its operator chain.
fn parse_math_expr(s: &[u8], i: usize) -> (r: Result<(usize, Expr), ParseError>)
    requires
        i <= s@.len(),
    ensures
        (match r {
            Ok(p) => spec_expr(s@, i as int) == Some((p.0 as int, p.1.model())) && i < p.0
                && p.0 <= s@.len(),
            Err(e) => spec_expr(s@, i as int) is None && e.pos <= s@.len(),
        }),
    decreases s@.len() - i, 8int,
{
    match parse_term(s, i) {
        Ok((j, e)) => parse_expr_rest(s, j, e),
        Err(pe) => Err(pe),
    }
}

/// The whole-input entry of the grammar.
fn parse_basic_expr(s: &[u8], i: usize) -> (r: Result<(usize, Expr), ParseError>)
    requires
        i <= s@.len(),
    ensures
        (match r {
            Ok(p) => spec_expr(s@, i as int) == Some((p.0 as int, p.1.model())) && i < p.0
                && p.0 <= s@.len(),
            Err(e) => spec_expr(s@, i as int) is None && e.pos <= s@.len(),
        }),
    decreases s@.len() - i, 9int,
{
    parse_math_expr(s, i)
}

/// Parses one expression from the front of `input`.
///
/// On success the result holds the byte offset just past what the grammar
/// consumed — the remainder of the input starts there and judging it is the
/// caller's business — and the expression tree, which is exactly what the
/// grammar denotes for this input: `spec_parse(bytes(input))`.  An error is
/// returned precisely when the grammar matches no prefix of the input.
pub fn parse(input: &str) -> (r: Result<(usize, Expr), ParseError>)
    ensures
        (match r {
            Ok(p) => spec_parse(input.spec_bytes()) == Some((p.0 as int, p.1.model())) && 0 < p.0
                && p.0 <= input.spec_bytes().len(),
            Err(e) => spec_parse(input.spec_bytes()) is None && e.pos <= input.spec_bytes().len(),
        }),
{
    let bytes = input.as_bytes();
    parse_basic_expr(bytes, 0)
}

/// Judges one whole input line.
///
/// An empty line is `Empty`; a line the grammar consumes completely yields
/// its tree; a line the grammar matches no prefix of yields the parse
/// failure; and a line with text left over past the parsed expression
/// reports the offset where that text begins.
pub fn parse_line(line: &str) -> (r: LineOutcome)
    ensures
        (match r {
            LineOutcome::Empty => line.spec_bytes().len() == 0,
            LineOutcome::Value(e) => line.spec_bytes().len() > 0 && spec_parse(line.spec_bytes())
                == Some((line.spec_bytes().len() as int, e.model())),
            LineOutcome::ParseFailure(pe) => line.spec_bytes().len() > 0 && spec_parse(
                line.spec_bytes(),
            ) is None && pe.pos <= line.spec_bytes().len(),
            LineOutcome::Trailing(j) => line.spec_bytes().len() > 0 && (spec_parse(
                line.spec_bytes(),
            ) matches Some(p) && p.0 == j as int) && (j as int) < line.spec_bytes().len(),
        }),
{
    let bytes = line.as_bytes();
    if bytes.len() == 0 {
        LineOutcome::Empty
    } else {
        match parse_basic_expr(bytes, 0) {
            Ok((j, e)) => {
                if j == bytes.len() {
                    LineOutcome::Value(e)
                } else {
                    LineOutcome::Trailing(j)
                }
            },
            Err(pe) => LineOutcome::ParseFailure(pe),
        }
    }
}

} // verus!
