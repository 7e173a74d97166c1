use vstd::prelude::*;

use super::Expression;
use super::{spec_parse_control_flow_expression, ExprModel};
use crate::parser::{
    grammar::utility::{spec_keyword, Kw, Parsed},
    remaining, ParseEnv, ParseState,
};
use super::{opt_expr_model, parse_control_flow_expression};
use crate::parser::grammar::utility::{parsed, OptRes, Parser, ParsingHelper};

verus! {

/// Return expression, with or without a returned value
#[derive(Debug, PartialEq)]
pub struct ReturnExpr(pub Option<Box<Expression>>);

impl ReturnExpr {
    pub fn new(value: Expression) -> (r: Self)
        ensures
            r == ReturnExpr(Some(Box::new(value))),
    {
        Self(Some(Box::new(value)))
    }

    pub fn empty() -> (r: Self)
        ensures
            r == ReturnExpr(None),
    {
        Self(None)
    }
}

impl From<ReturnExpr> for Expression {
    fn from(e: ReturnExpr) -> (r: Self)
        ensures
            r == Expression::Return(e),
    {
        Expression::Return(e)
    }
}

impl vstd::std_specs::convert::FromSpecImpl<ReturnExpr> for Expression {
    open spec fn obeys_from_spec() -> bool {
        true
    }

    open spec fn from_spec(e: ReturnExpr) -> Self {
        Expression::Return(e)
    }
}


/// return
///     = KW_RETURN, [control_flow_expression]
///     ;
pub open spec fn spec_parse_return(e: ParseEnv, s: ParseState) -> Parsed<ExprModel>
    decreases remaining(e, s), 42int,
{
    proof {
        reveal(spec_keyword);
    }
    let (s1, kw) = spec_keyword(e, s, Kw::Return);
    if !kw {
        (s1, Ok(None))
    } else {
        let (s2, r) = spec_parse_control_flow_expression(e, s1);
        match r {
            Err(x) => (s2, Err(x)),
            Ok(None) => (s2, Ok(Some(ExprModel::Return(None)))),
            Ok(Some(x)) => (s2, Ok(Some(ExprModel::Return(Some(Box::new(x)))))),
        }
    }
}


/// return
///     = KW_RETURN, [control_flow_expression]
///     ;
pub fn parse_return(p: &mut Parser) -> (r: OptRes<Expression>)
    ensures
        parsed(
            *old(p),
            *final(p),
            opt_expr_model(r),
            spec_parse_return(old(p).env(), old(p).state()),
        ),
    decreases remaining(old(p).env(), old(p).state()), 42int,
{
    if !p.keyword(Kw::Return)? {
        return Ok(None);
    }
    if let Some(expression) = parse_control_flow_expression(p)? {
        Ok(Some(Expression::Return(ReturnExpr::new(expression))))
    } else {
        Ok(Some(Expression::Return(ReturnExpr::empty())))
    }
}

} // verus!
