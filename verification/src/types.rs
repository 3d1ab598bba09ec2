//! The expression tree produced by the parser, its mathematical model, and
//! the outcomes a caller can see.

use vstd::prelude::*;

verus! {

/// Mathematical model of an expression tree.  A `Num` leaf carries the bytes
/// of the numeric literal exactly as they stood in the input; every other
/// variant owns its fully parsed children.
pub enum ExprModel {
    Num(Seq<u8>),
    Add(Box<ExprModel>, Box<ExprModel>),
    Sub(Box<ExprModel>, Box<ExprModel>),
    Mul(Box<ExprModel>, Box<ExprModel>),
    Div(Box<ExprModel>, Box<ExprModel>),
    Exp(Box<ExprModel>, Box<ExprModel>),
    Sin(Box<ExprModel>),
    Cos(Box<ExprModel>),
}

/// An expression tree.  `Num` holds the bytes of the literal as matched in
/// the input line; the numeric conversion is left to the caller, so the tree
/// itself is exact.  The tree is finite, each node owns its children, and
/// `Num` is the only leaf.
#[derive(Debug, PartialEq)]
pub enum Expr {
    Num(Vec<u8>),
    Add(Box<Expr>, Box<Expr>),
    Sub(Box<Expr>, Box<Expr>),
    Mul(Box<Expr>, Box<Expr>),
    Div(Box<Expr>, Box<Expr>),
    Exp(Box<Expr>, Box<Expr>),
    Sin(Box<Expr>),
    Cos(Box<Expr>),
}

impl Expr {
    /// The mathematical value of this tree: the same shape, with each
    /// literal leaf abstracted to its byte sequence.
    pub open spec fn model(self) -> ExprModel
        decreases self,
    {
        match self {
            Expr::Num(v) => ExprModel::Num(v@),
            Expr::Add(a, b) => ExprModel::Add(Box::new(a.model()), Box::new(b.model())),
            Expr::Sub(a, b) => ExprModel::Sub(Box::new(a.model()), Box::new(b.model())),
            Expr::Mul(a, b) => ExprModel::Mul(Box::new(a.model()), Box::new(b.model())),
            Expr::Div(a, b) => ExprModel::Div(Box::new(a.model()), Box::new(b.model())),
            Expr::Exp(a, b) => ExprModel::Exp(Box::new(a.model()), Box::new(b.model())),
            Expr::Sin(a) => ExprModel::Sin(Box::new(a.model())),
            Expr::Cos(a) => ExprModel::Cos(Box::new(a.model())),
        }
    }
}

/// A parse failure: the byte offset at which the parse gave up.  The
/// position is diagnostic; the parser's contracts pin down exactly *when* a
/// failure is returned, not the offset stored here.
#[derive(Debug, PartialEq, Eq, Clone, Copy)]
pub struct ParseError {
    pub pos: usize,
}

/// What one input line amounts to: nothing at all, a fully parsed
/// expression, a parse failure, or an expression followed by trailing text
/// the grammar does not consume (reported with the offset where that text
/// begins).
#[derive(Debug, PartialEq)]
pub enum LineOutcome {
    Empty,
    Value(Expr),
    ParseFailure(ParseError),
    Trailing(usize),
}

} // verus!
