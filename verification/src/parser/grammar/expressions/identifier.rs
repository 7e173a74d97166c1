use vstd::prelude::*;

use super::Expression;
use super::ExprModel;
use crate::parser::{
    grammar::utility::{spec_identifier, Parsed},
    ParseEnv, ParseState,
};
use super::opt_expr_model;
use crate::parser::grammar::utility::{parsed, OptRes, Parser, ParsingHelper};

verus! {

/// Identifier expression
#[derive(Debug, PartialEq)]
pub struct IdentifierExpr(pub String);

impl IdentifierExpr {
    pub fn new(identifier: String) -> (r: Self)
        ensures
            r == IdentifierExpr(identifier),
    {
        Self(identifier)
    }
}

impl From<IdentifierExpr> for Expression {
    fn from(e: IdentifierExpr) -> (r: Self)
        ensures
            r == Expression::Identifier(e),
    {
        Expression::Identifier(e)
    }
}

impl vstd::std_specs::convert::FromSpecImpl<IdentifierExpr> for Expression {
    open spec fn obeys_from_spec() -> bool {
        true
    }

    open spec fn from_spec(e: IdentifierExpr) -> Self {
        Expression::Identifier(e)
    }
}


/// IDENTIFIER
#[verifier::opaque]
pub open spec fn spec_parse_identifier_expression(e: ParseEnv, s: ParseState) -> Parsed<ExprModel> {
    let (s1, id) = spec_identifier(e, s);
    match id {
        Some(i) => (s1, Ok(Some(ExprModel::Identifier(i)))),
        None => (s1, Ok(None)),
    }
}


/// IDENTIFIER
pub fn parse_identifier_expression(p: &mut Parser) -> (r: OptRes<Expression>)
    ensures
        parsed(
            *old(p),
            *final(p),
            opt_expr_model(r),
            spec_parse_identifier_expression(old(p).env(), old(p).state()),
        ),
{
    proof {
        reveal(spec_parse_identifier_expression);
    }
    if let Some(identifier) = p.identifier()? {
        return Ok(Some(Expression::Identifier(IdentifierExpr::new(identifier))));
    }
    Ok(None)
}

} // verus!
