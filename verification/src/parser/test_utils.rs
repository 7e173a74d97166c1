use vstd::prelude::*;

use super::{
    grammar::program::{res_program_model, spec_parse_program, Program},
    initial_state,
    position::Position,
    token::{Token, TokenType},
    ParseEnv, Parser, ParserError, ParserWarning,
};
use crate::scannable::Scannable;
use super::token_scanner::TokenScanner;

verus! {

/// Scanner over a list of tokens held in memory.
///
/// The current token is the one at `index`; once the list is used up the
/// current token is the end-of-tokens marker placed where the last token
/// stopped (row 0, column 0 for an empty list).
pub struct DummyScanner {
    tokens: Vec<Token>,
    index: usize,
}

/// The end-of-tokens marker that follows the given tokens.
pub open spec fn end_of_tokens(tokens: Seq<Token>) -> Token {
    let p = if tokens.len() == 0 {
        Position { row: 0, col: 0 }
    } else {
        tokens.last().stop
    };
    Token { token_type: TokenType::EndOfTokens, start: p, stop: p }
}

/// The token at `index`, or the end-of-tokens marker past the end.
pub open spec fn token_at(tokens: Seq<Token>, index: int) -> Token {
    if 0 <= index < tokens.len() {
        tokens[index]
    } else {
        end_of_tokens(tokens)
    }
}

impl DummyScanner {
    #[verifier::type_invariant]
    spec fn inv(self) -> bool {
        self.index <= self.tokens.len()
    }

    /// The tokens being scanned.
    pub closed spec fn tokens(&self) -> Seq<Token> {
        self.tokens@
    }

    /// How many tokens have been passed over.
    pub closed spec fn index(&self) -> int {
        self.index as int
    }

    /// Starts scanning the given tokens; the first one is current.
    pub fn new(tokens: Vec<Token>) -> (r: Self)
        ensures
            r.tokens() == tokens@,
            r.index() == 0,
    {
        Self { tokens, index: 0 }
    }

    /// The parser's token scanner over the same tokens, at the same one.
    pub fn into_token_scanner(self) -> (r: TokenScanner)
        ensures
            r.tokens() == self.tokens(),
            r.index() == self.index(),
    {
        proof {
            use_type_invariant(&self);
        }
        TokenScanner::from_tokens(self.tokens, self.index)
    }

    pub proof fn lemma_index_nonnegative(&self)
        ensures
            0 <= self.index(),
    {
    }
}

impl Scannable<Token> for DummyScanner {
    fn curr(&self) -> (r: Token)
        ensures
            r == token_at(self.tokens(), self.index()),
    {
        proof {
            use_type_invariant(self);
        }
        if self.index < self.tokens.len() {
            self.tokens[self.index].copy()
        } else if self.tokens.len() == 0 {
            Token::empty()
        } else {
            let p = self.tokens[self.tokens.len() - 1].stop;
            Token { token_type: TokenType::EndOfTokens, start: p, stop: p }
        }
    }

    /// Moves to the next token; tells whether a token remains, that is
    /// whether the token now current is not the end-of-tokens marker.
    fn pop(&mut self) -> (r: bool)
        ensures
            final(self).tokens() == old(self).tokens(),
            final(self).index() == if old(self).index() < old(self).tokens().len() {
                old(self).index() + 1
            } else {
                old(self).index()
            },
            r == !(token_at(final(self).tokens(), final(self).index()).token_type is EndOfTokens),
    {
        proof {
            use_type_invariant(&*self);
        }
        if self.index < self.tokens.len() {
            self.index = self.index + 1;
        }
        if self.index < self.tokens.len() {
            !self.tokens[self.index].token_type.is_end_of_tokens()
        } else {
            false
        }
    }
}

/// A token of the given type at row 0, column 0.
pub fn dummy_token(token_type: TokenType) -> (r: Token)
    ensures
        r == (Token {
            token_type,
            start: Position { row: 0, col: 0 },
            stop: Position { row: 0, col: 0 },
        }),
{
    Token { token_type, start: Position::new(0, 0), stop: Position::new(0, 0) }
}

/// A token of the given type spanning from `(r1, c1)` to `(r2, c2)`.
pub fn token(token_type: TokenType, start: (usize, usize), stop: (usize, usize)) -> (r: Token)
    ensures
        r == (Token {
            token_type,
            start: Position { row: start.0, col: start.1 },
            stop: Position { row: stop.0, col: stop.1 },
        }),
{
    Token {
        token_type,
        start: Position::new(start.0, start.1),
        stop: Position::new(stop.0, stop.1),
    }
}

/// Parses a whole program from the given tokens, with no limit on
/// warnings; gives the outcome and the warnings reported.
pub fn parse(tokens: Vec<Token>) -> (r: (Result<Program, ParserError>, Vec<ParserWarning>))
    ensures
        ({
            let (s, expected) = spec_parse_program(
                ParseEnv { tokens: tokens@, max_warnings: -1i32 },
                initial_state(),
            );
            res_program_model(r.0) == expected && r.1@ == s.warnings
        }),
{
    let scanner = DummyScanner::new(tokens);
    let mut parser = Parser::new_with_defaults(scanner);
    let result = parser.parse();
    (result, parser.get_warnings())
}

} // verus!
