use vstd::prelude::*;

use super::{keywords::Keyword, operators::Operator, position::Position};

verus! {

/// Kind and payload of a token handed to the parser.
///
/// A floating point literal is carried as the bit pattern of its IEEE 754
/// binary64 value (what `f64::to_bits` gives); the parser only moves it
/// into the syntax tree and never computes with it.
#[derive(Clone, Debug, PartialEq)]
pub enum TokenType {
    Operator(Operator),
    Keyword(Keyword),
    Identifier(String),
    String(String),
    Float(u64),
    Int(i64),
    EndOfTokens,
}

impl TokenType {
    /// A copy of this token type.
    pub fn copy(&self) -> (r: TokenType)
        ensures
            r == *self,
    {
        match self {
            TokenType::Operator(op) => TokenType::Operator(*op),
            TokenType::Keyword(kw) => TokenType::Keyword(*kw),
            TokenType::Identifier(s) => TokenType::Identifier(s.clone()),
            TokenType::String(s) => TokenType::String(s.clone()),
            TokenType::Float(v) => TokenType::Float(*v),
            TokenType::Int(v) => TokenType::Int(*v),
            TokenType::EndOfTokens => TokenType::EndOfTokens,
        }
    }

    /// Whether this is the marker of the end of the token stream.
    pub fn is_end_of_tokens(&self) -> (r: bool)
        ensures
            r == (*self is EndOfTokens),
    {
        match self {
            TokenType::EndOfTokens => true,
            _ => false,
        }
    }
}

/// A token together with where it starts and stops in the source.
#[derive(Clone, Debug)]
pub struct Token {
    pub token_type: TokenType,
    pub start: Position,
    pub stop: Position,
}

impl Token {
    /// The end-of-tokens marker at row 0, column 0.
    pub fn empty() -> (r: Self)
        ensures
            r == (Token {
                token_type: TokenType::EndOfTokens,
                start: Position { row: 0, col: 0 },
                stop: Position { row: 0, col: 0 },
            }),
    {
        Token {
            token_type: TokenType::EndOfTokens,
            start: Position::new(0, 0),
            stop: Position::new(0, 0),
        }
    }

    /// A copy of this token.
    pub fn copy(&self) -> (r: Token)
        ensures
            r == *self,
    {
        Token { token_type: self.token_type.copy(), start: self.start, stop: self.stop }
    }
}

} // verus!
