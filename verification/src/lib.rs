//! A small expression calculator: a verified recursive-descent parser that
//! turns one line of text into an expression tree, together with the
//! grammar it implements, stated as specification functions.

pub mod grammar;
pub mod laws;
pub mod parser;
pub mod types;
