use vstd::prelude::*;

use crate::{
    parser::{keywords::Keyword, operators::Operator},
    position::Position,
    scanner::{can_advance, scanner_after_pops, spec_scanner_pop, Scanner, ScannerModel},
};

verus! {

/// Kind and payload of a token produced by the lexer.
///
/// A floating point literal is carried as the bit pattern of its IEEE 754
/// binary64 value (what `f64::to_bits` gives).
#[derive(Debug, Clone)]
pub enum TokenType {
    Operator(Operator),
    Keyword(Keyword),
    Comment(String),
    Identifier(String),
    String(String),
    Float(u64),
    Int(i64),
    Error(String),
}

/// A token together with where it starts and stops in the source.
#[derive(Debug, Clone)]
pub struct Token {
    pub token_type: TokenType,
    pub start: Position,
    pub stop: Position,
}

/// Builds one token: remembers where it started while the scanner moves
/// over its characters.
pub struct TokenBuilder<'a> {
    scanner: &'a mut Scanner,
    start: Position,
    origin: Ghost<ScannerModel>,
    pops: Ghost<nat>,
}

impl<'a> TokenBuilder<'a> {
    /// The scanner as it stands now.
    pub closed spec fn scanner(&self) -> ScannerModel {
        self.scanner.model()
    }

    /// Where the token started.
    pub closed spec fn start(&self) -> Position {
        self.start
    }

    /// The scanner as it stood when the token was started.
    pub closed spec fn origin(&self) -> ScannerModel {
        self.origin@
    }

    /// How many times the scanner moved since the token was started.
    pub closed spec fn pops(&self) -> nat {
        self.pops@
    }

    /// The scanner is the one the token started on, moved `pops()` times,
    /// and the token starts where that scanner had last moved from.
    pub closed spec fn wf(&self) -> bool {
        &&& self.scanner.model() == scanner_after_pops(self.origin@, self.pops@)
        &&& self.start == self.origin@.prev_position
    }

    /// Starts a token where the scanner last moved from.
    pub fn new(scanner: &'a mut Scanner) -> (r: Self)
        ensures
            r.scanner() == old(scanner).model(),
            r.start() == old(scanner).model().prev_position,
            r.origin() == old(scanner).model(),
            r.pops() == 0,
            r.wf(),
    {
        let start = scanner.last_pos();
        let ghost origin = scanner.model();
        Self { scanner, start, origin: Ghost(origin), pops: Ghost(0) }
    }

    /// Moves the scanner one character forward.
    pub fn pop(&mut self)
        requires
            can_advance(old(self).scanner().position),
        ensures
            final(self).scanner() == spec_scanner_pop(old(self).scanner()),
            final(self).start() == old(self).start(),
            final(self).origin() == old(self).origin(),
            final(self).pops() == old(self).pops() + 1,
            old(self).wf() ==> final(self).wf(),
    {
        self.scanner.pop();
        self.pops = Ghost(self.pops@ + 1);
    }

    /// The current character.
    pub fn peek(&self) -> (r: char)
        ensures
            r == self.scanner().current,
    {
        self.scanner.peek()
    }

    /// The token of the given type from where it started to where the
    /// scanner last moved from.
    pub fn bake(&self, token_type: TokenType) -> (r: Token)
        ensures
            r == (Token { token_type, start: self.start(), stop: self.scanner().prev_position }),
            self.wf() ==> r == (Token {
                token_type,
                start: self.origin().prev_position,
                stop: scanner_after_pops(self.origin(), self.pops()).prev_position,
            }),
    {
        Token { token_type, start: self.start, stop: self.scanner.last_pos() }
    }
}

} // verus!
