//! From the lexer's tokens to the parser's tokens.
use vstd::prelude::*;

use super::position::Position;
use super::token::{Token, TokenType};
use crate::position::Position as LexemPosition;
use crate::token::{Token as Lexem, TokenType as LexemType};
use crate::scannable::Scannable;
use super::test_utils::token_at;

verus! {

impl From<LexemPosition> for Position {
    fn from(lp: LexemPosition) -> (r: Self)
        ensures
            r == (Position { row: lp.row, col: lp.col }),
    {
        Self { row: lp.row, col: lp.col }
    }
}

impl vstd::std_specs::convert::FromSpecImpl<LexemPosition> for Position {
    open spec fn obeys_from_spec() -> bool {
        true
    }

    open spec fn from_spec(lp: LexemPosition) -> Self {
        Position { row: lp.row, col: lp.col }
    }
}

/// Where a lexer position lies for the parser: its row and column.
pub open spec fn parser_position(lp: LexemPosition) -> Position {
    Position { row: lp.row, col: lp.col }
}

/// The parser's token type for a lexer token type; comments and lexer errors
/// have none, the parser never sees them.
pub open spec fn parser_token_type(t: LexemType) -> Option<TokenType> {
    match t {
        LexemType::Operator(op) => Some(TokenType::Operator(op)),
        LexemType::Keyword(kw) => Some(TokenType::Keyword(kw)),
        LexemType::Identifier(id) => Some(TokenType::Identifier(id)),
        LexemType::String(s) => Some(TokenType::String(s)),
        LexemType::Float(bits) => Some(TokenType::Float(bits)),
        LexemType::Int(v) => Some(TokenType::Int(v)),
        LexemType::Comment(_) => None,
        LexemType::Error(_) => None,
    }
}

/// The parser tokens for the lexer tokens, in order, with comments and
/// lexer errors left out; each keeps the start and stop of its lexem.
pub open spec fn converted_tokens(lexems: Seq<Lexem>) -> Seq<Token>
    decreases lexems.len(),
{
    if lexems.len() == 0 {
        Seq::empty()
    } else {
        let rest = converted_tokens(lexems.drop_last());
        let l = lexems.last();
        match parser_token_type(l.token_type) {
            Some(t) => rest.push(
                Token { token_type: t, start: parser_position(l.start), stop: parser_position(l.stop) },
            ),
            None => rest,
        }
    }
}

/// The end-of-tokens marker that closes the given tokens: it starts and
/// stops where the last of them stopped (row 0, column 0 if there is none).
pub open spec fn closing_token(tokens: Seq<Token>) -> Token {
    let p = if tokens.len() == 0 {
        Position { row: 0, col: 0 }
    } else {
        tokens.last().stop
    };
    Token { token_type: TokenType::EndOfTokens, start: p, stop: p }
}

/// The tokens the parser reads for the given lexer tokens: the converted
/// tokens, then the end-of-tokens marker.
pub open spec fn spec_parser_tokens(lexems: Seq<Lexem>) -> Seq<Token> {
    let tokens = converted_tokens(lexems);
    tokens.push(closing_token(tokens))
}

fn parser_token(l: &Lexem) -> (r: Option<Token>)
    ensures
        r == (match parser_token_type(l.token_type) {
            Some(t) => Some(
                Token { token_type: t, start: parser_position(l.start), stop: parser_position(l.stop) },
            ),
            None => None,
        }),
{
    let token_type = match &l.token_type {
        LexemType::Operator(op) => TokenType::Operator(*op),
        LexemType::Keyword(kw) => TokenType::Keyword(*kw),
        LexemType::Identifier(id) => TokenType::Identifier(id.clone()),
        LexemType::String(s) => TokenType::String(s.clone()),
        LexemType::Float(bits) => TokenType::Float(*bits),
        LexemType::Int(v) => TokenType::Int(*v),
        LexemType::Comment(_) => return None,
        LexemType::Error(_) => return None,
    };
    Some(Token { token_type, start: Position::from(l.start), stop: Position::from(l.stop) })
}

/// Turns the lexer's tokens into the parser's: comments (and lexer errors)
/// are skipped, every other token keeps its kind, payload and span, and an
/// end-of-tokens marker at the last stop closes the list.
pub fn parser_tokens(lexems: &Vec<Lexem>) -> (r: Vec<Token>)
    ensures
        r@ == spec_parser_tokens(lexems@),
{
    let mut tokens: Vec<Token> = Vec::new();
    let mut i: usize = 0;
    while i < lexems.len()
        invariant
            i <= lexems.len(),
            tokens@ == converted_tokens(lexems@.take(i as int)),
        decreases lexems.len() - i,
    {
        proof {
            assert(lexems@.take(i + 1).drop_last() =~= lexems@.take(i as int));
            assert(lexems@.take(i + 1).last() == lexems@[i as int]);
        }
        match parser_token(&lexems[i]) {
            Some(t) => tokens.push(t),
            None => {},
        }
        i = i + 1;
    }
    assert(lexems@.take(lexems.len() as int) =~= lexems@);
    let last = if tokens.len() == 0 {
        Position::new(0, 0)
    } else {
        tokens[tokens.len() - 1].stop
    };
    tokens.push(Token { token_type: TokenType::EndOfTokens, start: last, stop: last });
    tokens
}

/// The tokens the parser reads, one at a time: the current one is at
/// `index`; past the last one the end-of-tokens marker at the last stop
/// stays current.
pub struct TokenScanner {
    tokens: Vec<Token>,
    index: usize,
}

impl TokenScanner {
    #[verifier::type_invariant]
    spec fn inv(self) -> bool {
        self.index <= self.tokens.len()
    }

    /// The tokens being scanned.
    pub closed spec fn tokens(&self) -> Seq<Token> {
        self.tokens@
    }

    /// How many tokens have been passed over.
    pub closed spec fn index(&self) -> int {
        self.index as int
    }

    /// Scans the tokens of a lexer: comments skipped, an end-of-tokens
    /// marker at the end (see `parser_tokens`); the first one is current.
    pub fn new(lexems: &Vec<Lexem>) -> (r: Self)
        ensures
            r.tokens() == spec_parser_tokens(lexems@),
            r.index() == 0,
    {
        Self { tokens: parser_tokens(lexems), index: 0 }
    }

    /// Scans the given tokens from the given one on.
    pub fn from_tokens(tokens: Vec<Token>, index: usize) -> (r: Self)
        requires
            index <= tokens.len(),
        ensures
            r.tokens() == tokens@,
            r.index() == index,
    {
        Self { tokens, index }
    }

    pub proof fn lemma_index_nonnegative(&self)
        ensures
            0 <= self.index(),
    {
    }
}

impl Scannable<Token> for TokenScanner {
    fn curr(&self) -> (r: Token)
        ensures
            r == token_at(self.tokens(), self.index()),
    {
        proof {
            use_type_invariant(self);
        }
        if self.index < self.tokens.len() {
            self.tokens[self.index].copy()
        } else if self.tokens.len() == 0 {
            Token::empty()
        } else {
            let p = self.tokens[self.tokens.len() - 1].stop;
            Token { token_type: TokenType::EndOfTokens, start: p, stop: p }
        }
    }

    /// Moves to the next token; tells whether the end of the tokens has been
    /// reached, that is whether the token now current is the end-of-tokens
    /// marker.
    fn pop(&mut self) -> (r: bool)
        ensures
            final(self).tokens() == old(self).tokens(),
            final(self).index() == if old(self).index() < old(self).tokens().len() {
                old(self).index() + 1
            } else {
                old(self).index()
            },
            r == (token_at(final(self).tokens(), final(self).index()).token_type is EndOfTokens),
    {
        proof {
            use_type_invariant(&*self);
        }
        if self.index < self.tokens.len() {
            self.index = self.index + 1;
        }
        if self.index < self.tokens.len() {
            self.tokens[self.index].token_type.is_end_of_tokens()
        } else {
            true
        }
    }
}

} // verus!
