//! The grammar, as specification functions over a sequence of input bytes.
//!
//! The language is, from loosest to tightest binding:
//!
//! ```text
//! expr     := term (('+' | '-') term)*          left-associative
//! term     := factor (('*' | '/') factor)*      left-associative
//! factor   := operation ('^' factor)?           right-associative
//! operation := parens | number | function
//! parens   := ws '(' expr ')' ws
//! function := ('sin' | 'cos') '(' expr ')'
//! number   := ws literal ws
//! literal  := digits ('.' digits*)? | '.' digits digits*
//! ```
//!
//! where `digits` is one or more decimal digits and `ws` is zero or more
//! spaces or tabs.
//!
//! Each rule is a function from the input and a start position to `None` (no
//! match at that position) or `Some((end, tree))`: the position just past
//! what the rule consumed and the tree it built.  Alternatives are tried in
//! the order written and the first success is kept; an operator chain folds
//! to the left, except `^`, which recurses on its right operand.  A chain
//! stops, without failing, at the first operator whose right operand does
//! not parse: the operator is left unconsumed.
//!
//! A successful rule always ends within bounds and, except for the operator
//! chains, strictly ahead of where it started.  The definitions check those
//! bounds at each recursive step (returning `None` on out-of-range
//! positions that never actually arise) so that the recursion is visibly
//! well-founded; the parser's contracts prove the checks always pass.

use vstd::prelude::*;

use crate::types::ExprModel;

verus! {

/// ASCII space.
pub const SPACE: u8 = 32;

/// ASCII horizontal tab.
pub const TAB: u8 = 9;

/// ASCII `0`.
pub const DIGIT0: u8 = 48;

/// ASCII `9`.
pub const DIGIT9: u8 = 57;

/// ASCII `.`.
pub const DOT: u8 = 46;

/// ASCII `(`.
pub const LPAREN: u8 = 40;

/// ASCII `)`.
pub const RPAREN: u8 = 41;

/// ASCII `+`.
pub const PLUS: u8 = 43;

/// ASCII `-`.
pub const MINUS: u8 = 45;

/// ASCII `*`.
pub const STAR: u8 = 42;

/// ASCII `/`.
pub const SLASH: u8 = 47;

/// ASCII `^`.
pub const CARET: u8 = 94;

/// ASCII `s`.
pub const LOW_S: u8 = 115;

/// ASCII `i`.
pub const LOW_I: u8 = 105;

/// ASCII `n`.
pub const LOW_N: u8 = 110;

/// ASCII `c`.
pub const LOW_C: u8 = 99;

/// ASCII `o`.
pub const LOW_O: u8 = 111;

/// Whitespace tolerated at token boundaries: space and horizontal tab.
pub open spec fn is_space(b: u8) -> bool {
    b == SPACE || b == TAB
}

/// ASCII decimal digit.
pub open spec fn is_digit(b: u8) -> bool {
    DIGIT0 <= b && b <= DIGIT9
}

/// The first position at or after `i` that does not hold whitespace.
pub open spec fn skip_ws(s: Seq<u8>, i: int) -> int
    decreases s.len() - i,
{
    if 0 <= i && i < s.len() && is_space(s[i]) {
        skip_ws(s, i + 1)
    } else {
        i
    }
}

/// The first position at or after `i` that does not hold a digit.
pub open spec fn digits_end(s: Seq<u8>, i: int) -> int
    decreases s.len() - i,
{
    if 0 <= i && i < s.len() && is_digit(s[i]) {
        digits_end(s, i + 1)
    } else {
        i
    }
}

/// Where a numeric literal starting exactly at `i` ends, or `None` if no
/// literal starts there.  A literal is one or more digits, optionally
/// followed by a dot and any number of digits, or a dot followed by one or
/// more digits: a lone dot is not a literal.
pub open spec fn literal_end(s: Seq<u8>, i: int) -> Option<int> {
    let k = digits_end(s, i);
    if k > i {
        if k < s.len() && s[k] == DOT {
            Some(digits_end(s, k + 1))
        } else {
            Some(k)
        }
    } else if 0 <= i && i < s.len() && s[i] == DOT {
        let m = digits_end(s, i + 1);
        if m > i + 1 {
            Some(m)
        } else {
            None
        }
    } else {
        None
    }
}

/// A whole byte sequence that is one numeric literal.
pub open spec fn is_number_literal(s: Seq<u8>) -> bool {
    literal_end(s, 0) == Some(s.len() as int)
}

/// Every byte of `s` is a digit.
pub open spec fn all_digits(s: Seq<u8>) -> bool {
    forall|t: int| #![trigger s[t]] 0 <= t < s.len() ==> is_digit(s[t])
}

/// The written-out description of a numeric literal: either digits alone,
/// or digits around a single dot, where at least one digit stands before
/// the dot or at least one after it.  [`crate::laws::lemma_literal_shape`]
/// proves this equivalent to [`is_number_literal`].
pub open spec fn literal_shape(s: Seq<u8>) -> bool {
    ||| (s.len() > 0 && all_digits(s))
    ||| (exists|d: int|
        #![trigger s[d]]
        0 <= d < s.len() && s[d] == DOT && (d > 0 || s.len() > 1) && all_digits(
            s.subrange(0, d),
        ) && all_digits(s.subrange(d + 1, s.len() as int)))
}

/// The `number` rule: optional whitespace, a literal, optional whitespace.
/// The leaf keeps the literal's bytes exactly.
pub open spec fn spec_number(s: Seq<u8>, i: int) -> Option<(int, ExprModel)> {
    let j = skip_ws(s, i);
    match literal_end(s, j) {
        Some(m) => Some((skip_ws(s, m), ExprModel::Num(s.subrange(j, m)))),
        None => None,
    }
}

/// The tree for one binary operator byte applied to two operands.
pub open spec fn apply_op(op: u8, l: ExprModel, r: ExprModel) -> ExprModel {
    if op == PLUS {
        ExprModel::Add(Box::new(l), Box::new(r))
    } else if op == MINUS {
        ExprModel::Sub(Box::new(l), Box::new(r))
    } else if op == STAR {
        ExprModel::Mul(Box::new(l), Box::new(r))
    } else if op == SLASH {
        ExprModel::Div(Box::new(l), Box::new(r))
    } else {
        ExprModel::Exp(Box::new(l), Box::new(r))
    }
}

/// The `parens` rule: whitespace, `(`, an expression, `)`, whitespace.
pub open spec fn spec_parens(s: Seq<u8>, i: int) -> Option<(int, ExprModel)>
    decreases s.len() - i, 2int,
{
    let j = skip_ws(s, i);
    if i <= j && j < s.len() && s[j] == LPAREN {
        match spec_expr(s, j + 1) {
            Some((k, e)) => if k < s.len() && s[k] == RPAREN {
                Some((skip_ws(s, k + 1), e))
            } else {
                None
            },
            None => None,
        }
    } else {
        None
    }
}

/// The `sin` half of the `function` rule: the name and the parenthesized
/// argument, with no whitespace of its own.
pub open spec fn spec_function_sin(s: Seq<u8>, i: int) -> Option<(int, ExprModel)>
    decreases s.len() - i, 1int,
{
    if 0 <= i && i + 4 <= s.len() && s[i] == LOW_S && s[i + 1] == LOW_I && s[i + 2] == LOW_N && s[i
        + 3] == LPAREN {
        match spec_expr(s, i + 4) {
            Some((k, e)) => if k < s.len() && s[k] == RPAREN {
                Some((k + 1, ExprModel::Sin(Box::new(e))))
            } else {
                None
            },
            None => None,
        }
    } else {
        None
    }
}

/// The `cos` half of the `function` rule.
pub open spec fn spec_function_cos(s: Seq<u8>, i: int) -> Option<(int, ExprModel)>
    decreases s.len() - i, 1int,
{
    if 0 <= i && i + 4 <= s.len() && s[i] == LOW_C && s[i + 1] == LOW_O && s[i + 2] == LOW_S && s[i
        + 3] == LPAREN {
        match spec_expr(s, i + 4) {
            Some((k, e)) => if k < s.len() && s[k] == RPAREN {
                Some((k + 1, ExprModel::Cos(Box::new(e))))
            } else {
                None
            },
            None => None,
        }
    } else {
        None
    }
}

/// The `function` rule: `sin`, then `cos`, first match wins.
pub open spec fn spec_function(s: Seq<u8>, i: int) -> Option<(int, ExprModel)>
    decreases s.len() - i, 2int,
{
    match spec_function_sin(s, i) {
        Some(r) => Some(r),
        None => spec_function_cos(s, i),
    }
}

/// The `operation` rule: a parenthesized expression, a number, or a
/// function call, tried in that order.
pub open spec fn spec_operation(s: Seq<u8>, i: int) -> Option<(int, ExprModel)>
    decreases s.len() - i, 3int,
{
    match spec_parens(s, i) {
        Some(r) => Some(r),
        None => match spec_number(s, i) {
            Some(r) => Some(r),
            None => spec_function(s, i),
        },
    }
}

/// The `factor` rule: an operation, optionally raised to a factor.  The
/// recursion on the right operand is what makes `^` right-associative.
pub open spec fn spec_factor(s: Seq<u8>, i: int) -> Option<(int, ExprModel)>
    decreases s.len() - i, 4int,
{
    match spec_operation(s, i) {
        Some((j, e)) => if i <= j && j < s.len() && s[j] == CARET {
            match spec_factor(s, j + 1) {
                Some((k, r)) => Some((k, ExprModel::Exp(Box::new(e), Box::new(r)))),
                None => Some((j, e)),
            }
        } else {
            Some((j, e))
        },
        None => None,
    }
}

/// The operator chain of the `term` rule: starting from an already parsed
/// left operand `acc`, fold `('*' | '/') factor` pairs onto it from the
/// left, stopping before the first pair that does not parse.
pub open spec fn spec_term_rest(s: Seq<u8>, i: int, acc: ExprModel) -> Option<(int, ExprModel)>
    decreases s.len() - i, 5int,
{
    if 0 <= i && i < s.len() && (s[i] == STAR || s[i] == SLASH) {
        match spec_factor(s, i + 1) {
            Some((j, e)) => if i < j && j <= s.len() {
                spec_term_rest(s, j, apply_op(s[i], acc, e))
            } else {
                None
            },
            None => Some((i, acc)),
        }
    } else {
        Some((i, acc))
    }
}

/// The `term` rule: a factor, then its operator chain.
pub open spec fn spec_term(s: Seq<u8>, i: int) -> Option<(int, ExprModel)>
    decreases s.len() - i, 6int,
{
    match spec_factor(s, i) {
        Some((j, e)) => if i < j && j <= s.len() {
            spec_term_rest(s, j, e)
        } else {
            None
        },
        None => None,
    }
}

/// The operator chain of the `expr` rule, folding `('+' | '-') term` pairs.
pub open spec fn spec_expr_rest(s: Seq<u8>, i: int, acc: ExprModel) -> Option<(int, ExprModel)>
    decreases s.len() - i, 7int,
{
    if 0 <= i && i < s.len() && (s[i] == PLUS || s[i] == MINUS) {
        match spec_term(s, i + 1) {
            Some((j, e)) => if i < j && j <= s.len() {
                spec_expr_rest(s, j, apply_op(s[i], acc, e))
            } else {
                None
            },
            None => Some((i, acc)),
        }
    } else {
        Some((i, acc))
    }
}

/// The `expr` rule: a term, then its operator chain.
pub open spec fn spec_expr(s: Seq<u8>, i: int) -> Option<(int, ExprModel)>
    decreases s.len() - i, 8int,
{
    match spec_term(s, i) {
        Some((j, e)) => if i < j && j <= s.len() {
            spec_expr_rest(s, j, e)
        } else {
            None
        },
        None => None,
    }
}

/// What parsing a whole input means: the `expr` rule from the first byte.
pub open spec fn spec_parse(s: Seq<u8>) -> Option<(int, ExprModel)> {
    spec_expr(s, 0)
}

} // verus!
