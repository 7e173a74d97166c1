use vstd::prelude::*;

use super::Expression;
use super::statement::Statement;
use super::{spec_parse_expression, statement::spec_parse_code_block, ExprModel};
use crate::parser::{
    grammar::utility::{fail_at, spec_keyword, ErroVar, Kw, Parsed},
    not_behind, remaining, ParseEnv, ParseState,
};
use super::{opt_expr_model, parse_expression, statement::parse_code_block};
use crate::parser::grammar::utility::{parsed, ErrorHandler, OptRes, Parser, ParsingHelper};

verus! {

/// If-else expression
#[derive(Debug, PartialEq)]
pub struct IfElseExpr {
    pub condition: Box<Expression>,
    pub true_case: Vec<Statement>,
    pub false_case: Option<Vec<Statement>>,
}

impl IfElseExpr {
    pub fn new(
        condition: Expression,
        true_case: Vec<Statement>,
        false_case: Option<Vec<Statement>>,
    ) -> (r: Self)
        ensures
            r == (IfElseExpr { condition: Box::new(condition), true_case, false_case }),
    {
        Self { condition: Box::new(condition), true_case, false_case }
    }
}

impl From<IfElseExpr> for Expression {
    fn from(e: IfElseExpr) -> (r: Self)
        ensures
            r == Expression::IfElse(e),
    {
        Expression::IfElse(e)
    }
}

impl vstd::std_specs::convert::FromSpecImpl<IfElseExpr> for Expression {
    open spec fn obeys_from_spec() -> bool {
        true
    }

    open spec fn from_spec(e: IfElseExpr) -> Self {
        Expression::IfElse(e)
    }
}


/// if_expression
///     = KW_IF, expression, code_block, [KW_ELSE, code_block]
///     ;
pub open spec fn spec_parse_if_else_expression(e: ParseEnv, s: ParseState) -> Parsed<ExprModel>
    decreases remaining(e, s), 38int,
{
    proof {
        reveal(spec_keyword);
    }
    let (s1, kw) = spec_keyword(e, s, Kw::If);
    if !kw {
        (s1, Ok(None))
    } else {
        let (s2, r) = spec_parse_expression(e, s1);
        match r {
            Err(x) => (s2, Err(x)),
            Ok(None) => fail_at(s2, ErroVar::IfMissingCondition),
            Ok(Some(condition)) => if !not_behind(s1, s2) {
                (s2, Ok(None))
            } else {
                let (s3, t) = spec_parse_code_block(e, s2);
                match t {
                    Err(x) => (s3, Err(x)),
                    Ok(None) => fail_at(s3, ErroVar::IfMissingTrueBranch),
                    Ok(Some(true_case)) => {
                        let (s4, els) = spec_keyword(e, s3, Kw::Else);
                        if !els || !not_behind(s2, s3) {
                            (
                                s4,
                                Ok(
                                    Some(
                                        ExprModel::IfElse {
                                            condition: Box::new(condition),
                                            true_case,
                                            false_case: None,
                                        },
                                    ),
                                ),
                            )
                        } else {
                            let (s5, f) = spec_parse_code_block(e, s4);
                            match f {
                                Err(x) => (s5, Err(x)),
                                Ok(None) => fail_at(s5, ErroVar::IfMissingFalseBranch),
                                Ok(Some(false_case)) => (
                                    s5,
                                    Ok(
                                        Some(
                                            ExprModel::IfElse {
                                                condition: Box::new(condition),
                                                true_case,
                                                false_case: Some(false_case),
                                            },
                                        ),
                                    ),
                                ),
                            }
                        }
                    },
                }
            },
        }
    }
}


/// if_expression
///     = KW_IF, expression, code_block, [KW_ELSE, code_block]
///     ;
pub fn parse_if_else_expression(p: &mut Parser) -> (r: OptRes<Expression>)
    ensures
        parsed(
            *old(p),
            *final(p),
            opt_expr_model(r),
            spec_parse_if_else_expression(old(p).env(), old(p).state()),
        ),
    decreases remaining(old(p).env(), old(p).state()), 38int,
{
    if !p.keyword(Kw::If)? {
        return Ok(None);
    }
    let condition = match parse_expression(p)? {
        Some(e) => e,
        None => return Err(p.error(ErroVar::IfMissingCondition)),
    };
    let true_case = match parse_code_block(p)? {
        Some(b) => b,
        None => return Err(p.error(ErroVar::IfMissingTrueBranch)),
    };
    let false_case = if p.keyword(Kw::Else)? {
        match parse_code_block(p)? {
            Some(b) => Some(b),
            None => return Err(p.error(ErroVar::IfMissingFalseBranch)),
        }
    } else {
        None
    };
    Ok(Some(Expression::IfElse(IfElseExpr::new(condition, true_case, false_case))))
}

} // verus!
