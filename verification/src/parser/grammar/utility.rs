//! Aliases and token-level helpers for parsing

use vstd::prelude::*;

pub use crate::parser::{
    keywords::Keyword as Kw, operators::Operator as Op, ErrorHandler, Parser,
    ParserErrorVariant as ErroVar, ParserWarningVariant as WarnVar,
};
pub use crate::scannable::Scannable;

use crate::parser::{
    advance, spec_curr, spec_pop, spec_warn, token::TokenType, ParseEnv, ParseState, ParserError,
};

verus! {

/// Result of a parsing step that may find nothing to parse.
pub type OptRes<T> = Result<Option<T>, ParserError>;

/// Result of a parsing step.
pub type Res<T> = Result<T, ParserError>;

/// What a parsing step leaves behind: the state it stopped in and what it
/// found.
pub type Parsed<T> = (ParseState, OptRes<T>);

/// The parsing step that took the parser from `p0` to `p1` and returned
/// (the model of) `r` is the one described by `expected`; where it found
/// nothing, it consumed nothing and reported nothing, and a critical error
/// carries the position where it stopped.
pub open spec fn parsed<T>(p0: Parser, p1: Parser, r: OptRes<T>, expected: Parsed<T>) -> bool {
    &&& p1.env() == p0.env()
    &&& (p1.state(), r) == expected
    &&& advance(p0.env(), p0.state(), p1.state(), r matches Ok(Some(_)))
    &&& r matches Ok(None) ==> p1.state() == p0.state()
    &&& r matches Err(x) ==> x.pos == p1.state().pos
}

/// As `parsed`, for a step that always finds something (possibly nothing
/// at all, as an empty list).
pub open spec fn parsed_res<T>(
    p0: Parser,
    p1: Parser,
    r: Res<T>,
    expected: (ParseState, Res<T>),
) -> bool {
    &&& p1.env() == p0.env()
    &&& (p1.state(), r) == expected
    &&& advance(p0.env(), p0.state(), p1.state(), false)
    &&& r matches Err(x) ==> x.pos == p1.state().pos
}

/// Aborting with the given critical error in state `s`.
pub open spec fn fail_at<T>(s: ParseState, v: ErroVar) -> (ParseState, Result<T, ParserError>) {
    (s, Err(crate::parser::spec_error(s, v)))
}

/// Consuming the current token if it is the given keyword.
#[verifier::opaque]
pub open spec fn spec_keyword(e: ParseEnv, s: ParseState, kw: Kw) -> (ParseState, bool) {
    match spec_curr(e, s).token_type {
        TokenType::Keyword(actual) => if actual == kw {
            (spec_pop(e, s), true)
        } else {
            (s, false)
        },
        _ => (s, false),
    }
}

/// Consuming the current token if it is the given operator.
#[verifier::opaque]
pub open spec fn spec_operator(e: ParseEnv, s: ParseState, op: Op) -> (ParseState, bool) {
    match spec_curr(e, s).token_type {
        TokenType::Operator(actual) => if actual == op {
            (spec_pop(e, s), true)
        } else {
            (s, false)
        },
        _ => (s, false),
    }
}

/// Consuming the current token if it is an identifier.
#[verifier::opaque]
pub open spec fn spec_identifier(e: ParseEnv, s: ParseState) -> (ParseState, Option<String>) {
    match spec_curr(e, s).token_type {
        TokenType::Identifier(id) => (spec_pop(e, s), Some(id)),
        _ => (s, None),
    }
}

/// Consuming the current token if it is a string.
#[verifier::opaque]
pub open spec fn spec_string(e: ParseEnv, s: ParseState) -> (ParseState, Option<String>) {
    match spec_curr(e, s).token_type {
        TokenType::String(v) => (spec_pop(e, s), Some(v)),
        _ => (s, None),
    }
}

/// Consuming the current token if it is an integer.
#[verifier::opaque]
pub open spec fn spec_integer(e: ParseEnv, s: ParseState) -> (ParseState, Option<i64>) {
    match spec_curr(e, s).token_type {
        TokenType::Int(v) => (spec_pop(e, s), Some(v)),
        _ => (s, None),
    }
}

/// Consuming the current token if it is a float (its bit pattern).
#[verifier::opaque]
pub open spec fn spec_float(e: ParseEnv, s: ParseState) -> (ParseState, Option<u64>) {
    match spec_curr(e, s).token_type {
        TokenType::Float(v) => (spec_pop(e, s), Some(v)),
        _ => (s, None),
    }
}

/// Consuming the given operator, or reporting the given warning where it
/// is missing.
#[verifier::opaque]
pub open spec fn spec_expect_operator(e: ParseEnv, s: ParseState, op: Op, w: WarnVar) -> (
    ParseState,
    Result<(), ParserError>,
) {
    let (s1, found) = spec_operator(e, s, op);
    if found {
        (s1, Ok(()))
    } else {
        spec_warn(e, s1, w)
    }
}

/// Consuming the given keyword, or reporting the given warning where it
/// is missing.
#[verifier::opaque]
pub open spec fn spec_expect_keyword(e: ParseEnv, s: ParseState, kw: Kw, w: WarnVar) -> (
    ParseState,
    Result<(), ParserError>,
) {
    let (s1, found) = spec_keyword(e, s, kw);
    if found {
        (s1, Ok(()))
    } else {
        spec_warn(e, s1, w)
    }
}

/// What `alt` gives for a result and the result of its fallback: the
/// fallback's where nothing was found, else the result itself.
pub open spec fn alt_of<T>(r: OptRes<T>, fallback: OptRes<T>) -> OptRes<T> {
    match r {
        Ok(None) => fallback,
        _ => r,
    }
}

/// Finding nothing is a two-sided identity of `alt`, an error or a found
/// value wins over any fallback, and chaining fallbacks is associative.
pub proof fn law_alt<T>(r: OptRes<T>, f: OptRes<T>, g: OptRes<T>)
    ensures
        alt_of(Ok(None), f) == f,
        alt_of(r, Ok(None)) == r,
        !(r matches Ok(None)) ==> alt_of(r, f) == r,
        alt_of(alt_of(r, f), g) == alt_of(r, alt_of(f, g)),
{
}

/// Result extension for simpler parser control flow.
pub trait ExtResult<T>: Sized {
    /// The result as a parsing result.
    spec fn outcome(&self) -> OptRes<T>;

    /// In simple terms, if self is:
    /// - an error      - returns the error
    /// - is none       - returns fallback result
    /// - is a value    - returns the value
    fn alt<F: FnOnce() -> OptRes<T>>(self, fallback: F) -> (r: OptRes<T>)
        requires
            self.outcome() matches Ok(None) ==> fallback.requires(()),
        ensures
            self.outcome() matches Ok(None) ==> fallback.ensures((), r),
            !(self.outcome() matches Ok(None)) ==> r == self.outcome(),
            exists|v: OptRes<T>|
                r == #[trigger] alt_of(self.outcome(), v) && (self.outcome() matches Ok(None)
                    ==> fallback.ensures((), v)),
    ;
}

impl<T> ExtResult<T> for OptRes<T> {
    open spec fn outcome(&self) -> OptRes<T> {
        *self
    }

    fn alt<F: FnOnce() -> OptRes<T>>(self, fallback: F) -> (r: OptRes<T>) {
        let ghost outcome = self;
        let r = if let Ok(opt) = self {
            if opt.is_some() {
                Ok(opt)
            } else {
                fallback()
            }
        } else {
            self
        };
        assert(r == alt_of(outcome, r));
        r
    }
}

/// Token-level helper methods
pub trait ParsingHelper {
    /// Whether the current parser token is a specific keyword
    fn keyword(&mut self, kw: Kw) -> Res<bool>;

    /// Whether the current parser token is a specific operator
    fn operator(&mut self, op: Op) -> Res<bool>;

    /// Whether the current parser token is an identifier
    fn identifier(&mut self) -> OptRes<String>;

    /// Whether the current parser token is a string
    fn string(&mut self) -> OptRes<String>;

    /// Whether the current parser token is an integer
    fn integer(&mut self) -> OptRes<i64>;

    /// Whether the current parser token is a float
    fn float(&mut self) -> OptRes<u64>;

    /// Whether parser ran out of tokens
    fn has_tokens(&mut self) -> bool;
}

impl ParsingHelper for Parser {
    fn keyword(&mut self, kw: Kw) -> (r: Res<bool>)
        ensures
            final(self).env() == old(self).env(),
            (final(self).state(), r) == ({
                let (s, b) = spec_keyword(old(self).env(), old(self).state(), kw);
                (s, Ok::<bool, ParserError>(b))
            }),
            advance(old(self).env(), old(self).state(), final(self).state(), r matches Ok(true)),
            r == Ok::<bool, ParserError>(false) ==> final(self).state() == old(self).state(),
    {
        proof {
            reveal(spec_keyword);
        }
        if let TokenType::Keyword(actual) = self.curr().token_type {
            if kw == actual {
                self.pop();
                return Ok(true);
            }
        }
        Ok(false)
    }

    fn operator(&mut self, op: Op) -> (r: Res<bool>)
        ensures
            final(self).env() == old(self).env(),
            (final(self).state(), r) == ({
                let (s, b) = spec_operator(old(self).env(), old(self).state(), op);
                (s, Ok::<bool, ParserError>(b))
            }),
            advance(old(self).env(), old(self).state(), final(self).state(), r matches Ok(true)),
            r == Ok::<bool, ParserError>(false) ==> final(self).state() == old(self).state(),
    {
        proof {
            reveal(spec_operator);
        }
        if let TokenType::Operator(actual) = self.curr().token_type {
            if op == actual {
                self.pop();
                return Ok(true);
            }
        }
        Ok(false)
    }

    fn identifier(&mut self) -> (r: OptRes<String>)
        ensures
            final(self).env() == old(self).env(),
            (final(self).state(), r) == ({
                let (s, v) = spec_identifier(old(self).env(), old(self).state());
                (s, Ok::<Option<String>, ParserError>(v))
            }),
            advance(old(self).env(), old(self).state(), final(self).state(), r matches Ok(Some(_))),
            r matches Ok(None) ==> final(self).state() == old(self).state(),
    {
        proof {
            reveal(spec_identifier);
        }
        if let TokenType::Identifier(id) = self.curr().token_type {
            self.pop();
            return Ok(Some(id));
        }
        Ok(None)
    }

    fn string(&mut self) -> (r: OptRes<String>)
        ensures
            final(self).env() == old(self).env(),
            (final(self).state(), r) == ({
                let (s, v) = spec_string(old(self).env(), old(self).state());
                (s, Ok::<Option<String>, ParserError>(v))
            }),
            advance(old(self).env(), old(self).state(), final(self).state(), r matches Ok(Some(_))),
            r matches Ok(None) ==> final(self).state() == old(self).state(),
    {
        proof {
            reveal(spec_string);
        }
        if let TokenType::String(s) = self.curr().token_type {
            self.pop();
            return Ok(Some(s));
        }
        Ok(None)
    }

    fn integer(&mut self) -> (r: OptRes<i64>)
        ensures
            final(self).env() == old(self).env(),
            (final(self).state(), r) == ({
                let (s, v) = spec_integer(old(self).env(), old(self).state());
                (s, Ok::<Option<i64>, ParserError>(v))
            }),
            advance(old(self).env(), old(self).state(), final(self).state(), r matches Ok(Some(_))),
            r matches Ok(None) ==> final(self).state() == old(self).state(),
    {
        proof {
            reveal(spec_integer);
        }
        if let TokenType::Int(v) = self.curr().token_type {
            self.pop();
            return Ok(Some(v));
        }
        Ok(None)
    }

    fn float(&mut self) -> (r: OptRes<u64>)
        ensures
            final(self).env() == old(self).env(),
            (final(self).state(), r) == ({
                let (s, v) = spec_float(old(self).env(), old(self).state());
                (s, Ok::<Option<u64>, ParserError>(v))
            }),
            advance(old(self).env(), old(self).state(), final(self).state(), r matches Ok(Some(_))),
            r matches Ok(None) ==> final(self).state() == old(self).state(),
    {
        proof {
            reveal(spec_float);
        }
        if let TokenType::Float(v) = self.curr().token_type {
            self.pop();
            return Ok(Some(v));
        }
        Ok(None)
    }

    fn has_tokens(&mut self) -> (r: bool)
        ensures
            *final(self) == *old(self),
            r == !(spec_curr(old(self).env(), old(self).state()).token_type is EndOfTokens),
    {
        !self.curr().token_type.is_end_of_tokens()
    }
}

} // verus!
