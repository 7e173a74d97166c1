use vstd::prelude::*;

use super::Expression;
use crate::parser::grammar::Value;
use super::ExprModel;
use crate::parser::{
    grammar::utility::{spec_float, spec_integer, spec_keyword, spec_string, Kw, OptRes, Parsed},
    ParseEnv, ParseState,
};
use crate::parser::grammar::utility::{parsed, Parser, ParsingHelper};
use super::opt_expr_model;

verus! {

/// Literal expression
#[derive(Debug, PartialEq)]
pub struct LiteralExpr(pub Value);

impl LiteralExpr {
    pub fn new(v: Value) -> (r: Self)
        ensures
            r == LiteralExpr(v),
    {
        Self(v)
    }
}

impl From<LiteralExpr> for Expression {
    fn from(e: LiteralExpr) -> (r: Self)
        ensures
            r == Expression::Literal(e),
    {
        Expression::Literal(e)
    }
}

impl vstd::std_specs::convert::FromSpecImpl<LiteralExpr> for Expression {
    open spec fn obeys_from_spec() -> bool {
        true
    }

    open spec fn from_spec(e: LiteralExpr) -> Self {
        Expression::Literal(e)
    }
}

impl From<Value> for Expression {
    fn from(v: Value) -> (r: Self)
        ensures
            r == Expression::Literal(LiteralExpr(v)),
    {
        Expression::Literal(LiteralExpr(v))
    }
}

impl vstd::std_specs::convert::FromSpecImpl<Value> for Expression {
    open spec fn obeys_from_spec() -> bool {
        true
    }

    open spec fn from_spec(v: Value) -> Self {
        Expression::Literal(LiteralExpr(v))
    }
}


/// CONST_INT
#[verifier::opaque]
pub open spec fn spec_parse_integer(e: ParseEnv, s: ParseState) -> Parsed<Value> {
    let (s1, v) = spec_integer(e, s);
    match v {
        Some(x) => (s1, Ok(Some(Value::Int(x)))),
        None => (s1, Ok(None)),
    }
}

/// CONST_FLOAT
#[verifier::opaque]
pub open spec fn spec_parse_float(e: ParseEnv, s: ParseState) -> Parsed<Value> {
    let (s1, v) = spec_float(e, s);
    match v {
        Some(x) => (s1, Ok(Some(Value::Float(x)))),
        None => (s1, Ok(None)),
    }
}

/// KW_TRUE | KW_FALSE
#[verifier::opaque]
pub open spec fn spec_parse_bool(e: ParseEnv, s: ParseState) -> Parsed<Value> {
    let (s1, t) = spec_keyword(e, s, Kw::True);
    if t {
        (s1, Ok(Some(Value::Bool(true))))
    } else {
        let (s2, f) = spec_keyword(e, s1, Kw::False);
        if f {
            (s2, Ok(Some(Value::Bool(false))))
        } else {
            (s2, Ok(None))
        }
    }
}

/// CONST_STRING
#[verifier::opaque]
pub open spec fn spec_parse_string(e: ParseEnv, s: ParseState) -> Parsed<Value> {
    let (s1, v) = spec_string(e, s);
    match v {
        Some(x) => (s1, Ok(Some(Value::String(x)))),
        None => (s1, Ok(None)),
    }
}

/// The first of the given alternatives that finds something, each tried
/// where the one before stopped.
#[verifier::opaque]
pub open spec fn spec_parse_literal_value(e: ParseEnv, s: ParseState) -> Parsed<Value> {
    let (s1, r1) = spec_parse_integer(e, s);
    match r1 {
        Ok(None) => {
            let (s2, r2) = spec_parse_float(e, s1);
            match r2 {
                Ok(None) => {
                    let (s3, r3) = spec_parse_bool(e, s2);
                    match r3 {
                        Ok(None) => spec_parse_string(e, s3),
                        _ => (s3, r3),
                    }
                },
                _ => (s2, r2),
            }
        },
        _ => (s1, r1),
    }
}

/// constant
///     = CONST_INT | CONST_FLOAT | KW_TRUE | KW_FALSE | CONST_STRING
///     ;
#[verifier::opaque]
pub open spec fn spec_parse_literal_expression(e: ParseEnv, s: ParseState) -> Parsed<ExprModel> {
    let (s1, r) = spec_parse_literal_value(e, s);
    match r {
        Ok(Some(v)) => (s1, Ok(Some(ExprModel::Literal(v)))),
        Ok(None) => (s1, Ok(None)),
        Err(x) => (s1, Err(x)),
    }
}


fn parse_integer(p: &mut Parser) -> (r: OptRes<Value>)
    ensures
        parsed(*old(p), *final(p), r, spec_parse_integer(old(p).env(), old(p).state())),
{
    proof {
        reveal(spec_parse_integer);
    }
    if let Some(v) = p.integer()? {
        return Ok(Some(Value::Int(v)));
    }
    Ok(None)
}

fn parse_float(p: &mut Parser) -> (r: OptRes<Value>)
    ensures
        parsed(*old(p), *final(p), r, spec_parse_float(old(p).env(), old(p).state())),
{
    proof {
        reveal(spec_parse_float);
    }
    if let Some(v) = p.float()? {
        return Ok(Some(Value::Float(v)));
    }
    Ok(None)
}

fn parse_bool(p: &mut Parser) -> (r: OptRes<Value>)
    ensures
        parsed(*old(p), *final(p), r, spec_parse_bool(old(p).env(), old(p).state())),
{
    proof {
        reveal(spec_parse_bool);
    }
    if p.keyword(Kw::True)? {
        return Ok(Some(Value::Bool(true)));
    }
    if p.keyword(Kw::False)? {
        return Ok(Some(Value::Bool(false)));
    }
    Ok(None)
}

fn parse_string(p: &mut Parser) -> (r: OptRes<Value>)
    ensures
        parsed(*old(p), *final(p), r, spec_parse_string(old(p).env(), old(p).state())),
{
    proof {
        reveal(spec_parse_string);
    }
    if let Some(v) = p.string()? {
        return Ok(Some(Value::String(v)));
    }
    Ok(None)
}

/// constant
///     = CONST_INT | CONST_FLOAT | KW_TRUE | KW_FALSE | CONST_STRING
///     ;
pub fn parse_literal_expression(p: &mut Parser) -> (r: OptRes<Expression>)
    ensures
        parsed(
            *old(p),
            *final(p),
            opt_expr_model(r),
            spec_parse_literal_expression(old(p).env(), old(p).state()),
        ),
{
    proof {
        reveal(spec_parse_literal_expression);
        reveal(spec_parse_literal_value);
    }
    let value = if let Some(v) = parse_integer(p)? {
        v
    } else if let Some(v) = parse_float(p)? {
        v
    } else if let Some(v) = parse_bool(p)? {
        v
    } else if let Some(v) = parse_string(p)? {
        v
    } else {
        return Ok(None);
    };
    Ok(Some(Expression::Literal(LiteralExpr(value))))
}

} // verus!
