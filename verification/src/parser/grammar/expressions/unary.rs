use vstd::prelude::*;

use crate::interpreter::{ExecutionError, ExecutionErrorVariant};
use crate::parser::grammar::Value;

use super::Expression;
use super::{list_access::spec_parse_list_access_expression, ExprModel};
use crate::parser::{
    grammar::utility::{fail_at, ErroVar, Op, Parsed},
    not_behind, remaining, spec_curr, spec_pop, token::TokenType, ParseEnv, ParseState,
};
use super::{list_access::parse_list_access_expression, opt_expr_model};
use crate::parser::grammar::utility::{parsed, ErrorHandler, OptRes, Parser, Scannable};

verus! {

/// Algebraic negation and logical negation
#[derive(Debug, Clone, Copy, PartialEq, Eq, Structural)]
pub enum UnaryOperator {
    AlgebraicNegation,
    LogicalNegation,
}

/// Unary operation expression
#[derive(Debug, PartialEq)]
pub struct UnaryExpr {
    pub operator: UnaryOperator,
    pub expression: Box<Expression>,
}

impl UnaryExpr {
    pub fn new(operator: UnaryOperator, expression: Expression) -> (r: Self)
        ensures
            r == (UnaryExpr { operator, expression: Box::new(expression) }),
    {
        Self { operator, expression: Box::new(expression) }
    }
}

impl From<UnaryExpr> for Expression {
    fn from(e: UnaryExpr) -> (r: Self)
        ensures
            r == Expression::Unary(e),
    {
        Expression::Unary(e)
    }
}

impl vstd::std_specs::convert::FromSpecImpl<UnaryExpr> for Expression {
    open spec fn obeys_from_spec() -> bool {
        true
    }

    open spec fn from_spec(e: UnaryExpr) -> Self {
        Expression::Unary(e)
    }
}


/// unary_operators
///     = OP_NEGATE | OP_MINUS
///     ;
#[verifier::opaque]
pub open spec fn spec_parse_unary_operators(e: ParseEnv, s: ParseState) -> (
    ParseState,
    Option<UnaryOperator>,
) {
    match spec_curr(e, s).token_type {
        TokenType::Operator(Op::Minus) => (spec_pop(e, s), Some(UnaryOperator::AlgebraicNegation)),
        TokenType::Operator(Op::ExclamationMark) => (
            spec_pop(e, s),
            Some(UnaryOperator::LogicalNegation),
        ),
        _ => (s, None),
    }
}

/// unary_operator_expression
///     = {unary_operators}, list_access_expression
///     ;
pub open spec fn spec_parse_unary_operator_expression(e: ParseEnv, s: ParseState) -> Parsed<
    ExprModel,
>
    decreases remaining(e, s), 20int,
{
    proof {
        reveal(spec_parse_unary_operators);
    }
    let (s1, op) = spec_parse_unary_operators(e, s);
    match op {
        Some(o) => {
            let (s2, r) = spec_parse_unary_operator_expression(e, s1);
            match r {
                Err(x) => (s2, Err(x)),
                Ok(None) => fail_at(s2, ErroVar::UnaryOperatorMissingExpression),
                Ok(Some(x)) => (
                    s2,
                    Ok(Some(ExprModel::Unary { operator: o, expression: Box::new(x) })),
                ),
            }
        },
        None => if !not_behind(s, s1) {
            (s1, Ok(None))
        } else {
            spec_parse_list_access_expression(e, s1)
        },
    }
}


/// unary_operators
///     = OP_NEGATE | OP_MINUS
///     ;
fn parse_unary_operators(p: &mut Parser) -> (r: OptRes<UnaryOperator>)
    ensures
        parsed(*old(p), *final(p), r, {
            let (s, o) = spec_parse_unary_operators(old(p).env(), old(p).state());
            (s, Ok(o))
        }),
{
    proof {
        reveal(spec_parse_unary_operators);
    }
    match p.curr().token_type {
        TokenType::Operator(Op::Minus) => {
            p.pop();
            Ok(Some(UnaryOperator::AlgebraicNegation))
        },
        TokenType::Operator(Op::ExclamationMark) => {
            p.pop();
            Ok(Some(UnaryOperator::LogicalNegation))
        },
        _ => Ok(None),
    }
}

/// unary_operator_expression
///     = {unary_operators}, list_access_expression
///     ;
pub fn parse_unary_operator_expression(p: &mut Parser) -> (r: OptRes<Expression>)
    ensures
        parsed(
            *old(p),
            *final(p),
            opt_expr_model(r),
            spec_parse_unary_operator_expression(old(p).env(), old(p).state()),
        ),
    decreases remaining(old(p).env(), old(p).state()), 20int,
{
    if let Some(operator) = parse_unary_operators(p)? {
        let expression = match parse_unary_operator_expression(p)? {
            Some(e) => e,
            None => return Err(p.error(ErroVar::UnaryOperatorMissingExpression)),
        };
        Ok(Some(Expression::Unary(UnaryExpr::new(operator, expression))))
    } else if let Some(expression) = parse_list_access_expression(p)? {
        Ok(Some(expression))
    } else {
        Ok(None)
    }
}

/// The sign bit of an IEEE 754 binary64 value
pub const FLOAT_SIGN_BIT: u64 = 0x8000_0000_0000_0000;

/// What a unary operator gives on an evaluated operand: integers are
/// negated, floats have their sign flipped, booleans are inverted; any other
/// combination is unsupported.
pub open spec fn spec_unary_op(operator: UnaryOperator, value: Value) -> Result<Value, ExecutionError> {
    match (operator, value) {
        (UnaryOperator::AlgebraicNegation, Value::Int(v)) => Ok(Value::Int((-v) as i64)),
        (UnaryOperator::AlgebraicNegation, Value::Float(bits)) => Ok(
            Value::Float(bits ^ FLOAT_SIGN_BIT),
        ),
        (UnaryOperator::LogicalNegation, Value::Bool(b)) => Ok(Value::Bool(!b)),
        _ => Err(ExecutionError { variant: ExecutionErrorVariant::UnsupportedUnaryOperation }),
    }
}

/// Applies a unary operator to an evaluated operand. A float is carried as
/// its bit pattern, and negating it flips the sign bit, as IEEE 754 negation
/// does.
pub fn unary_op(operator: UnaryOperator, value: Value) -> (r: Result<Value, ExecutionError>)
    requires
        !(operator == UnaryOperator::AlgebraicNegation && value == Value::Int(i64::MIN)),
    ensures
        r == spec_unary_op(operator, value),
{
    match (operator, value) {
        (UnaryOperator::AlgebraicNegation, Value::Int(v)) => Ok(Value::Int(-v)),
        (UnaryOperator::AlgebraicNegation, Value::Float(bits)) => Ok(
            Value::Float(bits ^ FLOAT_SIGN_BIT),
        ),
        (UnaryOperator::LogicalNegation, Value::Bool(b)) => Ok(Value::Bool(!b)),
        _ => Err(ExecutionError::new(ExecutionErrorVariant::UnsupportedUnaryOperation)),
    }
}

} // verus!
