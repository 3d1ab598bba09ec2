//! Grammar-level properties, proved once for every input.

use vstd::prelude::*;

use crate::grammar::all_digits;
use crate::grammar::digits_end;
use crate::grammar::is_digit;
use crate::grammar::is_number_literal;
use crate::grammar::is_space;
use crate::grammar::literal_end;
use crate::grammar::literal_shape;
use crate::grammar::skip_ws;
use crate::grammar::spec_expr;
use crate::grammar::spec_expr_rest;
use crate::grammar::spec_factor;
use crate::grammar::spec_number;
use crate::grammar::spec_operation;
use crate::grammar::spec_parens;
use crate::grammar::spec_parse;
use crate::grammar::spec_term;
use crate::grammar::spec_term_rest;
use crate::grammar::DOT;
use crate::grammar::LPAREN;
use crate::types::ExprModel;

verus! {

/// Where the digits starting at `i` end, spelled out: every byte before the
/// end is a digit, and the end is the input's end or holds no digit.
proof fn lemma_digits_end(s: Seq<u8>, i: int)
    requires
        0 <= i <= s.len(),
    ensures
        i <= digits_end(s, i) <= s.len(),
        forall|t: int| #![trigger s[t]] i <= t < digits_end(s, i) ==> is_digit(s[t]),
        digits_end(s, i) == s.len() || !is_digit(s[digits_end(s, i)]),
    decreases s.len() - i,
{
    if i < s.len() && is_digit(s[i]) {
        lemma_digits_end(s, i + 1);
    }
}

/// `digits_end` lands exactly on the first non-digit.
proof fn lemma_digits_end_at(s: Seq<u8>, i: int, j: int)
    requires
        0 <= i <= j <= s.len(),
        forall|t: int| #![trigger s[t]] i <= t < j ==> is_digit(s[t]),
        j == s.len() || !is_digit(s[j]),
    ensures
        digits_end(s, i) == j,
{
    lemma_digits_end(s, i);
}

/// The grammar's literal rule accepts exactly the written-out forms: digits
/// alone, or digits around a single dot with a digit on at least one side.
pub proof fn lemma_literal_shape(s: Seq<u8>)
    ensures
        is_number_literal(s) <==> literal_shape(s),
{
    let len = s.len() as int;
    if is_number_literal(s) {
        let k = digits_end(s, 0);
        lemma_digits_end(s, 0);
        if k > 0 {
            if k < len && s[k] == DOT {
                lemma_digits_end(s, k + 1);
                assert(digits_end(s, k + 1) == len);
                assert(all_digits(s.subrange(0, k)));
                assert(all_digits(s.subrange(k + 1, len)));
                assert(literal_shape(s));
            } else {
                assert(k == len);
                assert(all_digits(s));
            }
        } else {
            assert(s[0] == DOT);
            let m = digits_end(s, 1);
            lemma_digits_end(s, 1);
            assert(m == len && m > 1);
            assert(all_digits(s.subrange(1, len)));
            assert(literal_shape(s));
        }
    }
    if literal_shape(s) {
        if s.len() > 0 && all_digits(s) {
            lemma_digits_end_at(s, 0, len);
            assert(literal_end(s, 0) == Some(len));
        } else {
            let d = choose|d: int|
                #![trigger s[d]]
                0 <= d < s.len() && s[d] == DOT && (d > 0 || s.len() > 1) && all_digits(
                    s.subrange(0, d),
                ) && all_digits(s.subrange(d + 1, len));
            assert forall|t: int| 0 <= t < d implies is_digit(#[trigger] s[t]) by {
                assert(s.subrange(0, d)[t] == s[t]);
            }
            assert forall|t: int| d + 1 <= t < len implies is_digit(#[trigger] s[t]) by {
                assert(s.subrange(d + 1, len)[t - d - 1] == s[t]);
            }
            lemma_digits_end_at(s, 0, d);
            lemma_digits_end_at(s, d + 1, len);
            if d > 0 {
                assert(literal_end(s, 0) == Some(len));
            } else {
                assert(len > 1);
                assert(literal_end(s, 0) == Some(len));
            }
        }
    }
}

/// Round trip for leaves: an input that is exactly one numeric literal
/// parses completely, to the leaf holding exactly that literal.  Together
/// with [`crate::parser::parse`]'s contract this says that for every valid
/// literal `n`, `parse(n)` consumes all of `n` and returns `Num(n)`: the
/// leaf carries the literal unchanged, so reading it numerically gives back
/// exactly the number `n` denotes.
pub proof fn lemma_literal_round_trip(s: Seq<u8>)
    requires
        is_number_literal(s),
    ensures
        spec_parse(s) == Some((s.len() as int, ExprModel::Num(s))),
{
    let len = s.len() as int;
    assert(literal_end(s, 0) == Some(len));
    // the literal is not empty and starts with a digit or a dot,
    // so no whitespace is skipped and no parenthesis opens
    if digits_end(s, 0) > 0 {
        assert(is_digit(s[0]));
    } else {
        assert(s[0] == DOT);
    }
    assert(0 < len);
    assert(!is_space(s[0]));
    assert(s[0] != LPAREN);
    assert(skip_ws(s, 0) == 0);
    assert(skip_ws(s, len) == len);
    assert(s.subrange(0, len) =~= s);
    let leaf = ExprModel::Num(s);
    assert(spec_number(s, 0) == Some((len, leaf)));
    assert(spec_parens(s, 0) is None);
    assert(spec_operation(s, 0) == Some((len, leaf)));
    assert(spec_factor(s, 0) == Some((len, leaf)));
    assert(spec_term_rest(s, len, leaf) == Some((len, leaf)));
    assert(spec_term(s, 0) == Some((len, leaf)));
    assert(spec_expr_rest(s, len, leaf) == Some((len, leaf)));
    assert(spec_expr(s, 0) == Some((len, leaf)));
}

} // verus!
