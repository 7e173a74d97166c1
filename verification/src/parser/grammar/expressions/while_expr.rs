use vstd::prelude::*;

use super::Expression;
use super::statement::Statement;
use super::{spec_parse_expression, statement::spec_parse_code_block, ExprModel};
use crate::parser::{
    grammar::utility::{fail_at, spec_keyword, ErroVar, Kw, Parsed},
    not_behind, remaining, ParseEnv, ParseState,
};
use super::{opt_expr_model, parse_expression, statement::parse_code_block};
use crate::parser::grammar::utility::{parsed, ErrorHandler, OptRes, Parser, ParsingHelper};

verus! {

/// While loop expression
#[derive(Debug, PartialEq)]
pub struct WhileExpr {
    pub condition: Box<Expression>,
    pub body: Vec<Statement>,
}

impl WhileExpr {
    pub fn new(condition: Expression, body: Vec<Statement>) -> (r: Self)
        ensures
            r == (WhileExpr { condition: Box::new(condition), body }),
    {
        Self { condition: Box::new(condition), body }
    }
}

impl From<WhileExpr> for Expression {
    fn from(e: WhileExpr) -> (r: Self)
        ensures
            r == Expression::While(e),
    {
        Expression::While(e)
    }
}

impl vstd::std_specs::convert::FromSpecImpl<WhileExpr> for Expression {
    open spec fn obeys_from_spec() -> bool {
        true
    }

    open spec fn from_spec(e: WhileExpr) -> Self {
        Expression::While(e)
    }
}


/// while_expression
///     = KW_WHILE, expression, code_block
///     ;
pub open spec fn spec_parse_while_expression(e: ParseEnv, s: ParseState) -> Parsed<ExprModel>
    decreases remaining(e, s), 38int,
{
    proof {
        reveal(spec_keyword);
    }
    let (s1, kw) = spec_keyword(e, s, Kw::While);
    if !kw {
        (s1, Ok(None))
    } else {
        let (s2, r) = spec_parse_expression(e, s1);
        match r {
            Err(x) => (s2, Err(x)),
            Ok(None) => fail_at(s2, ErroVar::WhileLoopMissingCondition),
            Ok(Some(condition)) => if !not_behind(s1, s2) {
                (s2, Ok(None))
            } else {
                let (s3, b) = spec_parse_code_block(e, s2);
                match b {
                    Err(x) => (s3, Err(x)),
                    Ok(None) => fail_at(s3, ErroVar::WhileLoopMissingBody),
                    Ok(Some(body)) => (
                        s3,
                        Ok(Some(ExprModel::While { condition: Box::new(condition), body })),
                    ),
                }
            },
        }
    }
}


/// while_expression
///     = KW_WHILE, expression, code_block
///     ;
pub fn parse_while_expression(p: &mut Parser) -> (r: OptRes<Expression>)
    ensures
        parsed(
            *old(p),
            *final(p),
            opt_expr_model(r),
            spec_parse_while_expression(old(p).env(), old(p).state()),
        ),
    decreases remaining(old(p).env(), old(p).state()), 38int,
{
    if !p.keyword(Kw::While)? {
        return Ok(None);
    }
    let condition = match parse_expression(p)? {
        Some(e) => e,
        None => return Err(p.error(ErroVar::WhileLoopMissingCondition)),
    };
    let body = match parse_code_block(p)? {
        Some(b) => b,
        None => return Err(p.error(ErroVar::WhileLoopMissingBody)),
    };
    Ok(Some(Expression::While(WhileExpr::new(condition, body))))
}

} // verus!
