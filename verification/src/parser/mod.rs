use vstd::prelude::*;

use crate::scannable::Scannable;

use self::{
    grammar::{
        program::{parse_program, res_program_model, spec_parse_program, Program},
        utility::parsed_res,
    },
    position::Position,
    test_utils::{token_at, DummyScanner},
    token::Token,
    token_scanner::{spec_parser_tokens, TokenScanner},
};

pub mod grammar;
pub mod keywords;
pub mod operators;
pub mod position;
pub mod test_utils;
pub mod token;
pub mod token_scanner;

verus! {

/// Errors that prevent parser from working
#[derive(Debug, Clone, Copy, PartialEq, Eq, Structural)]
pub enum ParserErrorVariant {
    FunctionParameterMissingType,
    FunctionMissingIdentifier,
    FunctionMissingReturnType,  // technically, could default to `none`
    FunctionMissingBody,
    IfMissingCondition,  // unreachable (following code block is assumed to be the condition)
    IfMissingTrueBranch,
    IfMissingFalseBranch,
    WhileLoopMissingCondition,  // unreachable (following code block is assumed to be the provider)
    WhileLoopMissingBody,
    ForLoopMissingVariable,
    ForLoopMissingProvider,  // unreachable (following code block is assumed to be the provider)
    ForLoopMissingBody,
    InvalidBracketExpression,
    ListRangeAccessIncomplete,
    ListAccessEmpty,
    UnaryOperatorMissingExpression,
    BinaryOperatorMissingRHS,
    AssignmentMissingExpression,
    VariableDeclarationMissingType,
    VariableDeclarationMissingIdentifier,
    VariableDeclarationMissingExpression,
    DuplicateParameter,
    TooManyWarnings,
}

/// Critical errors remember the last position before they happened
#[derive(Debug, Clone, Copy, PartialEq, Eq, Structural)]
pub struct ParserError {
    pub error: ParserErrorVariant,
    pub pos: Position,
}

/// Errors that the parser can work around
#[derive(Debug, Clone, Copy, PartialEq, Eq, Structural)]
pub enum ParserWarningVariant {
    ExpectedExpression,
    MissingOpeningRoundBracket,
    MissingClosingRoundBracket,
    MissingClosingSquareBracket,
    MissingClosingCurlyBracket,
    MissingColon,
    VariableDeclarationMissingEqualsSign,
    VariableDeclarationMissingTypeSeparator,
    ForLoopMissingInKeyword,
    ExpectedParameter,
}

/// Elusive errors remember the position where they were supposed to be
#[derive(Debug, Clone, Copy, PartialEq, Eq, Structural)]
pub struct ParserWarning {
    pub warning: ParserWarningVariant,
    pub start: Position,
    pub stop: Position,
}

/// What stays fixed while parsing: the tokens and the warning limit
/// (a limit of zero or less means no limit).
pub struct ParseEnv {
    pub tokens: Seq<Token>,
    pub max_warnings: i32,
}

/// What parsing changes: how many tokens have been consumed, the stop
/// position of the last consumed token, and the warnings reported so far.
pub struct ParseState {
    pub index: int,
    pub pos: Position,
    pub warnings: Seq<ParserWarning>,
}

/// The state of a parser that has not consumed anything yet.
pub open spec fn initial_state() -> ParseState {
    ParseState { index: 0, pos: Position { row: 1, col: 1 }, warnings: Seq::empty() }
}

/// The current token.
pub open spec fn spec_curr(e: ParseEnv, s: ParseState) -> Token {
    token_at(e.tokens, s.index)
}

/// The state after consuming the current token.
pub open spec fn spec_pop(e: ParseEnv, s: ParseState) -> ParseState {
    ParseState {
        index: if 0 <= s.index < e.tokens.len() {
            s.index + 1
        } else {
            s.index
        },
        pos: spec_curr(e, s).stop,
        warnings: s.warnings,
    }
}

/// Reporting a warning: it is recorded at the current token; once more
/// warnings than the limit have been recorded, parsing is aborted.
#[verifier::opaque]
pub open spec fn spec_warn(e: ParseEnv, s: ParseState, w: ParserWarningVariant) -> (
    ParseState,
    Result<(), ParserError>,
) {
    let t = spec_curr(e, s);
    let warnings = s.warnings.push(ParserWarning { warning: w, start: t.start, stop: t.stop });
    let s2 = ParseState { warnings, ..s };
    if e.max_warnings > 0 && warnings.len() > e.max_warnings {
        (s2, Err(ParserError { error: ParserErrorVariant::TooManyWarnings, pos: s.pos }))
    } else {
        (s2, Ok(()))
    }
}

/// A warning is recorded after those already reported, at the current
/// token; it aborts parsing with `TooManyWarnings` exactly when the limit is
/// positive and the warnings recorded now outnumber it. With a limit of zero
/// or below, as `Parser::new_with_defaults` sets, no warning ever aborts.
pub proof fn law_warning_limit(e: ParseEnv, s: ParseState, w: ParserWarningVariant)
    ensures
        spec_warn(e, s, w).0.warnings == s.warnings.push(
            ParserWarning { warning: w, start: spec_curr(e, s).start, stop: spec_curr(e, s).stop },
        ),
        spec_warn(e, s, w).0.index == s.index,
        spec_warn(e, s, w).0.pos == s.pos,
        spec_warn(e, s, w).1 is Err <==> (e.max_warnings > 0 && s.warnings.len() + 1
            > e.max_warnings),
        spec_warn(e, s, w).1 matches Err(x) ==> x == spec_error(
            s,
            ParserErrorVariant::TooManyWarnings,
        ),
        e.max_warnings <= 0 ==> spec_warn(e, s, w).1 is Ok,
{
    reveal(spec_warn);
}

/// The critical error of the given kind at the current position.
pub open spec fn spec_error(s: ParseState, v: ParserErrorVariant) -> ParserError {
    ParserError { error: v, pos: s.pos }
}

/// How many tokens are left to consume; what every parsing step uses up.
pub open spec fn remaining(e: ParseEnv, s: ParseState) -> nat {
    if s.index < e.tokens.len() {
        (e.tokens.len() - s.index) as nat
    } else {
        0
    }
}

/// `s2` lies at or after `s1` in the token stream.
///
/// The grammar's spec functions test this (and `ahead`) on the state a step
/// returns before recursing; every step's contract shows that the test
/// always passes, so the branch taken when it fails never arises. It is
/// there to make the termination of the recursion evident.
pub open spec fn not_behind(s1: ParseState, s2: ParseState) -> bool {
    s1.index <= s2.index
}

/// `s2` lies after `s1`, which had a token left to consume.
pub open spec fn ahead(e: ParseEnv, s1: ParseState, s2: ParseState) -> bool {
    s1.index < e.tokens.len() && s1.index < s2.index
}

/// The warnings recorded in `s1` are the first warnings recorded in `s2`.
pub open spec fn warnings_kept(s1: ParseState, s2: ParseState) -> bool {
    &&& s1.warnings.len() <= s2.warnings.len()
    &&& forall|i: int| 0 <= i < s1.warnings.len() ==> #[trigger] s2.warnings[i] == s1.warnings[i]
}

/// The last position is where the last consumed token stopped.
pub open spec fn pos_tracks(e: ParseEnv, s: ParseState) -> bool {
    s.index > 0 ==> s.pos == token_at(e.tokens, s.index - 1).stop
}

/// How a parsing step may move from `s0` to `s1`: never backwards, keeping
/// every warning already reported, past at least one token where `consumed`
/// holds, and keeping the last position where the last consumed token
/// stopped.
pub open spec fn advance(e: ParseEnv, s0: ParseState, s1: ParseState, consumed: bool) -> bool {
    &&& not_behind(s0, s1)
    &&& warnings_kept(s0, s1)
    &&& consumed ==> ahead(e, s0, s1)
    &&& pos_tracks(e, s0) ==> pos_tracks(e, s1)
}

/// Language parser.
pub struct Parser {
    warnings: Vec<ParserWarning>,
    pos: Position,
    scanner: TokenScanner,
    max_warnings: i32,
}

impl Parser {
    /// The tokens and the warning limit.
    pub closed spec fn env(&self) -> ParseEnv {
        ParseEnv { tokens: self.scanner.tokens(), max_warnings: self.max_warnings }
    }

    /// Consumed tokens, last position and warnings.
    pub closed spec fn state(&self) -> ParseState {
        ParseState { index: self.scanner.index(), pos: self.pos, warnings: self.warnings@ }
    }

    /// A parser with no limit on warnings.
    pub fn new_with_defaults(token_scanner: DummyScanner) -> (r: Self)
        ensures
            r.env() == (ParseEnv { tokens: token_scanner.tokens(), max_warnings: -1i32 }),
            r.state() == (ParseState {
                index: token_scanner.index(),
                pos: Position { row: 1, col: 1 },
                warnings: Seq::empty(),
            }),
    {
        Self {
            warnings: Vec::new(),
            pos: Position::new(1, 1),
            scanner: token_scanner.into_token_scanner(),
            max_warnings: -1,
        }
    }

    /// A parser that aborts once more than `max_warnings` warnings were
    /// reported (no limit when `max_warnings` is zero or less).
    pub fn new(token_scanner: DummyScanner, max_warnings: i32) -> (r: Self)
        ensures
            r.env() == (ParseEnv { tokens: token_scanner.tokens(), max_warnings }),
            r.state() == (ParseState {
                index: token_scanner.index(),
                pos: Position { row: 1, col: 1 },
                warnings: Seq::empty(),
            }),
    {
        Self {
            warnings: Vec::new(),
            pos: Position::new(1, 1),
            scanner: token_scanner.into_token_scanner(),
            max_warnings,
        }
    }

    /// A parser over the tokens of a lexer: comments are skipped and an
    /// end-of-tokens marker closes the list (see `parser_tokens`).
    pub fn from_lexems(lexems: &Vec<crate::token::Token>, max_warnings: i32) -> (r: Self)
        ensures
            r.env() == (ParseEnv { tokens: spec_parser_tokens(lexems@), max_warnings }),
            r.state() == initial_state(),
    {
        Self {
            warnings: Vec::new(),
            pos: Position::new(1, 1),
            scanner: TokenScanner::new(lexems),
            max_warnings,
        }
    }

    /// Attempts to parse.
    /// Returns either a `Program` or critical parsing error; the error
    /// remembers where the last consumed token stopped.
    pub fn parse(&mut self) -> (r: Result<Program, ParserError>)
        ensures
            parsed_res(
                *old(self),
                *final(self),
                res_program_model(r),
                spec_parse_program(old(self).env(), old(self).state()),
            ),
            pos_tracks(old(self).env(), old(self).state()) && final(self).state().index > 0 ==> (
            r matches Err(x) ==> x.pos == token_at(
                final(self).env().tokens,
                final(self).state().index - 1,
            ).stop),
    {
        parse_program(self)
    }

    /// Consumes parser and returns all parser warnings.
    pub fn get_warnings(self) -> (r: Vec<ParserWarning>)
        ensures
            r@ == self.state().warnings,
    {
        self.warnings
    }
}

/// Trait for error and warning handling
pub trait ErrorHandler {
    /// Reports errors that can be omited.
    /// They can be recovered after parsing is over.
    fn warn(&mut self, err: ParserWarningVariant) -> Result<(), ParserError>;

    /// Creates a critical error which aborts parsing.
    fn error(&mut self, err: ParserErrorVariant) -> ParserError;
}

impl ErrorHandler for Parser {
    fn warn(&mut self, err: ParserWarningVariant) -> (r: Result<(), ParserError>)
        ensures
            final(self).env() == old(self).env(),
            (final(self).state(), r) == spec_warn(old(self).env(), old(self).state(), err),
            advance(old(self).env(), old(self).state(), final(self).state(), false),
            final(self).state().index == old(self).state().index,
            final(self).state().pos == old(self).state().pos,
            r matches Err(x) ==> x.pos == final(self).state().pos,
    {
        proof {
            reveal(spec_warn);
        }
        let t = self.curr();
        let w = ParserWarning { warning: err, start: t.start, stop: t.stop };
        self.warnings.push(w);
        if self.max_warnings > 0 && self.warnings.len() > self.max_warnings as usize {
            return Err(ParserError { error: ParserErrorVariant::TooManyWarnings, pos: self.pos });
        }
        Ok(())
    }

    fn error(&mut self, err: ParserErrorVariant) -> (r: ParserError)
        ensures
            *final(self) == *old(self),
            r == spec_error(old(self).state(), err),
    {
        ParserError { error: err, pos: self.pos }
    }
}

impl Scannable<Token> for Parser {
    fn curr(&self) -> (r: Token)
        ensures
            r == spec_curr(self.env(), self.state()),
    {
        self.scanner.curr()
    }

    /// Moves to the next token, remembering where the current one stopped;
    /// tells whether the end of the tokens has been reached.
    fn pop(&mut self) -> (r: bool)
        ensures
            final(self).env() == old(self).env(),
            final(self).state() == spec_pop(old(self).env(), old(self).state()),
            r == (spec_curr(final(self).env(), final(self).state()).token_type is EndOfTokens),
    {
        proof {
            self.scanner.lemma_index_nonnegative();
        }
        self.pos = self.curr().stop;
        self.scanner.pop()
    }
}

} // verus!
