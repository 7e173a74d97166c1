use vstd::prelude::*;

use super::Expression;
use super::{spec_parse_expression_list, ExprModel};
use crate::parser::{
    grammar::utility::{spec_expect_operator, spec_operator, Op, Parsed, WarnVar},
    remaining, ParseEnv, ParseState,
};
use super::{opt_expr_model, parse_expression_list};
use crate::parser::{
    grammar::utility::{parsed, ErrorHandler, OptRes, Parser, ParsingHelper},
};

verus! {

/// List expression
#[derive(Debug, PartialEq)]
pub struct ListExpr(pub Vec<Expression>);

impl ListExpr {
    pub fn new(list: Vec<Expression>) -> (r: Self)
        ensures
            r == ListExpr(list),
    {
        Self(list)
    }
}

impl From<ListExpr> for Expression {
    fn from(e: ListExpr) -> (r: Self)
        ensures
            r == Expression::List(e),
    {
        Expression::List(e)
    }
}

impl vstd::std_specs::convert::FromSpecImpl<ListExpr> for Expression {
    open spec fn obeys_from_spec() -> bool {
        true
    }

    open spec fn from_spec(e: ListExpr) -> Self {
        Expression::List(e)
    }
}


/// list_expression
///     = OPEN_LIST, [expression, {SPLIT, expression}], CLOSE_LIST
///     ;
pub open spec fn spec_parse_list_expression(e: ParseEnv, s: ParseState) -> Parsed<ExprModel>
    decreases remaining(e, s), 16int,
{
    proof {
        reveal(spec_operator);
    }
    let (s1, open) = spec_operator(e, s, Op::OpenSquareBracket);
    if !open {
        (s1, Ok(None))
    } else {
        let (s2, r) = spec_parse_expression_list(e, s1);
        match r {
            Err(x) => (s2, Err(x)),
            Ok(items) => {
                let (s3, w) = spec_expect_operator(
                    e,
                    s2,
                    Op::CloseSquareBracket,
                    WarnVar::MissingClosingSquareBracket,
                );
                match w {
                    Err(x) => (s3, Err(x)),
                    Ok(_) => (s3, Ok(Some(ExprModel::List(items)))),
                }
            },
        }
    }
}


/// list_expression
///     = OPEN_LIST, [expression, {SPLIT, expression}], CLOSE_LIST
///     ;
pub fn parse_list_expression(p: &mut Parser) -> (r: OptRes<Expression>)
    ensures
        parsed(
            *old(p),
            *final(p),
            opt_expr_model(r),
            spec_parse_list_expression(old(p).env(), old(p).state()),
        ),
    decreases remaining(old(p).env(), old(p).state()), 16int,
{
    proof {
        reveal(spec_expect_operator);
    }
    if !p.operator(Op::OpenSquareBracket)? {
        return Ok(None);
    }
    let list = parse_expression_list(p)?;
    if !p.operator(Op::CloseSquareBracket)? {
        p.warn(WarnVar::MissingClosingSquareBracket)?;
    }
    Ok(Some(Expression::List(ListExpr::new(list))))
}

} // verus!
