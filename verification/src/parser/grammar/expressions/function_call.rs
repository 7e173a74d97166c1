use vstd::prelude::*;

use super::Expression;
use super::{identifier::spec_parse_identifier_expression, spec_parse_expression_list, ExprModel};
use crate::parser::{
    grammar::utility::{spec_expect_operator, spec_identifier, spec_operator, Op, Parsed, WarnVar},
    remaining, ParseEnv, ParseState,
};
use super::{identifier::parse_identifier_expression, opt_exprs_model, opt_expr_model, parse_expression_list, res_exprs_model};
use crate::parser::{
    grammar::utility::{parsed, parsed_res, ErrorHandler, OptRes, Parser, ParsingHelper, Res},
};

verus! {

/// Function call expression
#[derive(Debug, PartialEq)]
pub struct FunctionCallExpr {
    pub identifier: Box<Expression>,
    pub arguments: Vec<Expression>,
}

impl FunctionCallExpr {
    pub fn new(identifier: Expression, arguments: Vec<Expression>) -> (r: Self)
        ensures
            r == (FunctionCallExpr { identifier: Box::new(identifier), arguments }),
    {
        Self { identifier: Box::new(identifier), arguments }
    }
}

impl From<FunctionCallExpr> for Expression {
    fn from(e: FunctionCallExpr) -> (r: Self)
        ensures
            r == Expression::FunctionCall(e),
    {
        Expression::FunctionCall(e)
    }
}

impl vstd::std_specs::convert::FromSpecImpl<FunctionCallExpr> for Expression {
    open spec fn obeys_from_spec() -> bool {
        true
    }

    open spec fn from_spec(e: FunctionCallExpr) -> Self {
        Expression::FunctionCall(e)
    }
}


/// function_call
///     = OPEN_BRACKET, function_arguments, CLOSE_BRACKET
///     ;
pub open spec fn spec_parse_function_call(e: ParseEnv, s: ParseState) -> Parsed<Seq<ExprModel>>
    decreases remaining(e, s), 15int,
{
    proof {
        reveal(spec_operator);
    }
    let (s1, open) = spec_operator(e, s, Op::OpenRoundBracket);
    if !open {
        (s1, Ok(None))
    } else {
        let (s2, r) = spec_parse_expression_list(e, s1);
        match r {
            Err(x) => (s2, Err(x)),
            Ok(args) => {
                let (s3, w) = spec_expect_operator(
                    e,
                    s2,
                    Op::CloseRoundBracket,
                    WarnVar::MissingClosingRoundBracket,
                );
                match w {
                    Err(x) => (s3, Err(x)),
                    Ok(_) => (s3, Ok(Some(args))),
                }
            },
        }
    }
}

/// identifier_or_function_call
///     = IDENTIFIER, [function_call]
///     ;
pub open spec fn spec_parse_identifier_or_function_call_expression(
    e: ParseEnv,
    s: ParseState,
) -> Parsed<ExprModel>
    decreases remaining(e, s), 16int,
{
    proof {
        reveal(spec_parse_identifier_expression);
        reveal(spec_identifier);
    }
    let (s1, r) = spec_parse_identifier_expression(e, s);
    match r {
        Ok(Some(x)) => {
            let (s2, c) = spec_parse_function_call(e, s1);
            match c {
                Err(y) => (s2, Err(y)),
                Ok(None) => (s2, Ok(Some(x))),
                Ok(Some(args)) => (
                    s2,
                    Ok(Some(ExprModel::FunctionCall { identifier: Box::new(x), arguments: args })),
                ),
            }
        },
        _ => (s1, r),
    }
}


/// function_arguments
///     = [expression, {SPLIT, expression}]
///     ;
fn parse_function_arguments(p: &mut Parser) -> (r: Res<Vec<Expression>>)
    ensures
        parsed_res(
            *old(p),
            *final(p),
            res_exprs_model(r),
            spec_parse_expression_list(old(p).env(), old(p).state()),
        ),
    decreases remaining(old(p).env(), old(p).state()), 46int,
{
    parse_expression_list(p)
}

/// function_call
///     = OPEN_BRACKET, function_arguments, CLOSE_BRACKET
///     ;
fn parse_function_call(p: &mut Parser) -> (r: OptRes<Vec<Expression>>)
    ensures
        parsed(
            *old(p),
            *final(p),
            opt_exprs_model(r),
            spec_parse_function_call(old(p).env(), old(p).state()),
        ),
    decreases remaining(old(p).env(), old(p).state()), 15int,
{
    proof {
        reveal(spec_expect_operator);
    }
    if !p.operator(Op::OpenRoundBracket)? {
        return Ok(None);
    }
    let args = parse_function_arguments(p)?;
    if !p.operator(Op::CloseRoundBracket)? {
        p.warn(WarnVar::MissingClosingRoundBracket)?;
    }
    Ok(Some(args))
}

/// identifier_or_function_call
///     = IDENTIFIER, [function_call]
///     ;
pub fn parse_identifier_or_function_call_expression(p: &mut Parser) -> (r: OptRes<Expression>)
    ensures
        parsed(
            *old(p),
            *final(p),
            opt_expr_model(r),
            spec_parse_identifier_or_function_call_expression(old(p).env(), old(p).state()),
        ),
    decreases remaining(old(p).env(), old(p).state()), 16int,
{
    if let Some(mut expression) = parse_identifier_expression(p)? {
        if let Some(arguments) = parse_function_call(p)? {
            expression = Expression::FunctionCall(FunctionCallExpr::new(expression, arguments));
        }
        return Ok(Some(expression));
    }
    Ok(None)
}

} // verus!
