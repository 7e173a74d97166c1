//! Front end of a small imperative language: the character scanner that
//! feeds the lexer, the parser from tokens to a syntax tree with its
//! warnings, and the run-time operations on values.

pub mod interpreter;
pub mod parser;
pub mod position;
pub mod scannable;
pub mod scanner;
pub mod token;
