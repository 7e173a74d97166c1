use vstd::prelude::*;

use super::Expression;
use super::{binary::spec_parse_binary_level, spec_parse_expression, ExprModel};
use crate::parser::{
    grammar::utility::{fail_at, spec_operator, ErroVar, Op, Parsed},
    not_behind, remaining, ParseEnv, ParseState,
};
use super::{binary::parse_logical_alternative_expression, expr_model, opt_expr_model, parse_expression};
use crate::parser::{
    advance,
    grammar::utility::{parsed, ErrorHandler, OptRes, Parser, ParsingHelper},
};

verus! {

/// Variable assignment expression
#[derive(Debug, PartialEq)]
pub struct AssignmentExpr {
    pub identifier: Box<Expression>,
    pub expression: Box<Expression>,
}

impl AssignmentExpr {
    pub fn new(identifier: Expression, expression: Expression) -> (r: Self)
        ensures
            r == (AssignmentExpr { identifier: Box::new(identifier), expression: Box::new(expression) }),
    {
        Self { identifier: Box::new(identifier), expression: Box::new(expression) }
    }
}

impl From<AssignmentExpr> for Expression {
    fn from(e: AssignmentExpr) -> (r: Self)
        ensures
            r == Expression::Assignment(e),
    {
        Expression::Assignment(e)
    }
}

impl vstd::std_specs::convert::FromSpecImpl<AssignmentExpr> for Expression {
    open spec fn obeys_from_spec() -> bool {
        true
    }

    open spec fn from_spec(e: AssignmentExpr) -> Self {
        Expression::Assignment(e)
    }
}


/// variable_assignment_expression
///     = logical_alternative_expression, {ASSIGN, expression}
///     ;
pub open spec fn spec_parse_variable_assignment_expression(e: ParseEnv, s: ParseState) -> Parsed<
    ExprModel,
>
    decreases remaining(e, s), 40int,
{
    let (s1, r) = spec_parse_binary_level(e, s, 5);
    match r {
        Ok(Some(lhs)) => if !not_behind(s, s1) {
            (s1, Ok(None))
        } else {
            spec_parse_assignment_tail(e, s1, lhs)
        },
        _ => (s1, r),
    }
}

/// The assignments that follow the target `lhs`.
pub open spec fn spec_parse_assignment_tail(e: ParseEnv, s: ParseState, lhs: ExprModel) -> Parsed<
    ExprModel,
>
    decreases remaining(e, s), 39int,
{
    proof {
        reveal(spec_operator);
    }
    let (s1, assign) = spec_operator(e, s, Op::Equal);
    if !assign {
        (s1, Ok(Some(lhs)))
    } else {
        let (s2, r) = spec_parse_expression(e, s1);
        match r {
            Err(x) => (s2, Err(x)),
            Ok(None) => fail_at(s2, ErroVar::AssignmentMissingExpression),
            Ok(Some(rhs)) => if !not_behind(s1, s2) {
                (s2, Ok(None))
            } else {
                spec_parse_assignment_tail(
                    e,
                    s2,
                    ExprModel::Assignment { identifier: Box::new(lhs), expression: Box::new(rhs) },
                )
            },
        }
    }
}


/// variable_assignment_expression
///     = logical_alternative_expression, {ASSIGN, expression}
///     ;
pub fn parse_variable_assignment_expression(p: &mut Parser) -> (r: OptRes<Expression>)
    ensures
        parsed(
            *old(p),
            *final(p),
            opt_expr_model(r),
            spec_parse_variable_assignment_expression(old(p).env(), old(p).state()),
        ),
    decreases remaining(old(p).env(), old(p).state()), 40int,
{
    if let Some(mut lhs) = parse_logical_alternative_expression(p)? {
        loop
            invariant
                p.env() == old(p).env(),
                spec_parse_assignment_tail(p.env(), p.state(), expr_model(lhs))
                    == spec_parse_variable_assignment_expression(old(p).env(), old(p).state()),
                advance(old(p).env(), old(p).state(), p.state(), true),
            decreases remaining(p.env(), p.state()),
        {
            if !p.operator(Op::Equal)? {
                return Ok(Some(lhs));
            }
            let rhs = match parse_expression(p)? {
                Some(e) => e,
                None => return Err(p.error(ErroVar::AssignmentMissingExpression)),
            };
            lhs = Expression::Assignment(AssignmentExpr::new(lhs, rhs));
        }
    }
    Ok(None)
}

} // verus!
