use vstd::prelude::*;

use super::Expression;
use super::statement::Statement;
use super::{statement::spec_parse_code_block, ExprModel};
use crate::parser::{grammar::utility::Parsed, remaining, ParseEnv, ParseState};
use super::{opt_expr_model, statement::parse_code_block};
use crate::parser::grammar::utility::{parsed, OptRes, Parser};

verus! {

/// Block of code expression
#[derive(Debug, PartialEq)]
pub struct CodeBlockExpr(pub Vec<Statement>);

impl CodeBlockExpr {
    pub fn new(statements: Vec<Statement>) -> (r: Self)
        ensures
            r == CodeBlockExpr(statements),
    {
        Self(statements)
    }
}

impl From<CodeBlockExpr> for Expression {
    fn from(e: CodeBlockExpr) -> (r: Self)
        ensures
            r == Expression::CodeBlock(e),
    {
        Expression::CodeBlock(e)
    }
}

impl vstd::std_specs::convert::FromSpecImpl<CodeBlockExpr> for Expression {
    open spec fn obeys_from_spec() -> bool {
        true
    }

    open spec fn from_spec(e: CodeBlockExpr) -> Self {
        Expression::CodeBlock(e)
    }
}


/// code_block (as an expression)
pub open spec fn spec_parse_code_block_expression(e: ParseEnv, s: ParseState) -> Parsed<ExprModel>
    decreases remaining(e, s), 38int,
{
    let (s1, r) = spec_parse_code_block(e, s);
    match r {
        Ok(Some(v)) => (s1, Ok(Some(ExprModel::CodeBlock(v)))),
        Ok(None) => (s1, Ok(None)),
        Err(x) => (s1, Err(x)),
    }
}


/// code_block (as an expression)
pub fn parse_code_block_expression(p: &mut Parser) -> (r: OptRes<Expression>)
    ensures
        parsed(
            *old(p),
            *final(p),
            opt_expr_model(r),
            spec_parse_code_block_expression(old(p).env(), old(p).state()),
        ),
    decreases remaining(old(p).env(), old(p).state()), 38int,
{
    match parse_code_block(p)? {
        Some(v) => Ok(Some(Expression::CodeBlock(CodeBlockExpr::new(v)))),
        None => Ok(None),
    }
}

} // verus!
