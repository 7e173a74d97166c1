use vstd::prelude::*;

use super::Expression;
use super::statement::Statement;
use super::{spec_parse_expression, statement::spec_parse_code_block, ExprModel};
use crate::parser::{
    grammar::utility::{fail_at, spec_expect_keyword, spec_identifier, spec_keyword, ErroVar, Kw, Parsed, WarnVar},
    not_behind, remaining, ParseEnv, ParseState,
};
use super::{opt_expr_model, parse_expression, statement::parse_code_block};
use crate::parser::grammar::utility::{parsed, ErrorHandler, OptRes, Parser, ParsingHelper};

verus! {

/// For loop expression
#[derive(Debug, PartialEq)]
pub struct ForExpr {
    pub variable: String,
    pub provider: Box<Expression>,
    pub body: Vec<Statement>,
}

impl ForExpr {
    pub fn new(variable: String, provider: Expression, body: Vec<Statement>) -> (r: Self)
        ensures
            r == (ForExpr { variable, provider: Box::new(provider), body }),
    {
        Self { variable, provider: Box::new(provider), body }
    }
}

impl From<ForExpr> for Expression {
    fn from(e: ForExpr) -> (r: Self)
        ensures
            r == Expression::For(e),
    {
        Expression::For(e)
    }
}

impl vstd::std_specs::convert::FromSpecImpl<ForExpr> for Expression {
    open spec fn obeys_from_spec() -> bool {
        true
    }

    open spec fn from_spec(e: ForExpr) -> Self {
        Expression::For(e)
    }
}


/// for_expression
///     = KW_FOR, IDENTIFIER, KW_IN, expression, code_block
///     ;
pub open spec fn spec_parse_for_expression(e: ParseEnv, s: ParseState) -> Parsed<ExprModel>
    decreases remaining(e, s), 38int,
{
    proof {
        reveal(spec_keyword);
    }
    let (s1, kw) = spec_keyword(e, s, Kw::For);
    if !kw {
        (s1, Ok(None))
    } else {
        let (s2, id) = spec_identifier(e, s1);
        match id {
            None => fail_at(s2, ErroVar::ForLoopMissingVariable),
            Some(variable) => {
                let (s3, w) = spec_expect_keyword(e, s2, Kw::In, WarnVar::ForLoopMissingInKeyword);
                match w {
                    Err(x) => (s3, Err(x)),
                    Ok(_) => if !not_behind(s1, s3) {
                        (s3, Ok(None))
                    } else {
                        let (s4, r) = spec_parse_expression(e, s3);
                        match r {
                            Err(x) => (s4, Err(x)),
                            Ok(None) => fail_at(s4, ErroVar::ForLoopMissingProvider),
                            Ok(Some(provider)) => if !not_behind(s3, s4) {
                                (s4, Ok(None))
                            } else {
                                let (s5, b) = spec_parse_code_block(e, s4);
                                match b {
                                    Err(x) => (s5, Err(x)),
                                    Ok(None) => fail_at(s5, ErroVar::ForLoopMissingBody),
                                    Ok(Some(body)) => (
                                        s5,
                                        Ok(
                                            Some(
                                                ExprModel::For {
                                                    variable,
                                                    provider: Box::new(provider),
                                                    body,
                                                },
                                            ),
                                        ),
                                    ),
                                }
                            },
                        }
                    },
                }
            },
        }
    }
}


/// for_expression
///     = KW_FOR, IDENTIFIER, KW_IN, expression, code_block
///     ;
pub fn parse_for_expression(p: &mut Parser) -> (r: OptRes<Expression>)
    ensures
        parsed(
            *old(p),
            *final(p),
            opt_expr_model(r),
            spec_parse_for_expression(old(p).env(), old(p).state()),
        ),
    decreases remaining(old(p).env(), old(p).state()), 38int,
{
    proof {
        reveal(spec_expect_keyword);
    }
    if !p.keyword(Kw::For)? {
        return Ok(None);
    }
    let variable = match p.identifier()? {
        Some(v) => v,
        None => return Err(p.error(ErroVar::ForLoopMissingVariable)),
    };
    if !p.keyword(Kw::In)? {
        p.warn(WarnVar::ForLoopMissingInKeyword)?;
    }
    let provider = match parse_expression(p)? {
        Some(e) => e,
        None => return Err(p.error(ErroVar::ForLoopMissingProvider)),
    };
    let body = match parse_code_block(p)? {
        Some(b) => b,
        None => return Err(p.error(ErroVar::ForLoopMissingBody)),
    };
    Ok(Some(Expression::For(ForExpr::new(variable, provider, body))))
}

} // verus!
