use vstd::prelude::*;
use vstd::string::StringExecFns;

use crate::interpreter::{ExecutionError, ExecutionErrorVariant};
use crate::parser::grammar::Value;

use super::Expression;
use super::{unary::spec_parse_unary_operator_expression, ExprModel};
use crate::parser::{
    grammar::utility::{fail_at, spec_operator, ErroVar, Op, Parsed},
    not_behind, remaining, spec_curr, spec_pop, token::TokenType, ParseEnv, ParseState,
};
use super::{expr_model, opt_expr_model, unary::parse_unary_operator_expression};
use crate::parser::{
    advance,
    grammar::utility::{parsed, ErrorHandler, OptRes, Parser, ParsingHelper, Scannable},
};

verus! {

/// Binary operators
#[derive(Debug, Clone, Copy, PartialEq, Eq, Structural)]
pub enum BinaryOperator {
    Multiplication,
    Division,
    Modulo,
    Addition,
    Subtraction,
    Equal,
    Unequal,
    Lesser,
    LesserEqual,
    Greater,
    GreaterEqual,
    And,
    Or,
}

/// Binary operation expression
#[derive(Debug, PartialEq)]
pub struct BinaryExpr {
    pub lhs: Box<Expression>,
    pub operator: BinaryOperator,
    pub rhs: Box<Expression>,
}

impl BinaryExpr {
    pub fn new(lhs: Expression, operator: BinaryOperator, rhs: Expression) -> (r: Self)
        ensures
            r == (BinaryExpr { lhs: Box::new(lhs), operator, rhs: Box::new(rhs) }),
    {
        Self { lhs: Box::new(lhs), operator, rhs: Box::new(rhs) }
    }
}

impl From<BinaryExpr> for Expression {
    fn from(e: BinaryExpr) -> (r: Self)
        ensures
            r == Expression::Binary(e),
    {
        Expression::Binary(e)
    }
}

impl vstd::std_specs::convert::FromSpecImpl<BinaryExpr> for Expression {
    open spec fn obeys_from_spec() -> bool {
        true
    }

    open spec fn from_spec(e: BinaryExpr) -> Self {
        Expression::Binary(e)
    }
}


/// The binary operator of the given precedence level at the current token:
/// 1 for multiplicative, 2 additive, 3 comparison, 4 conjunction and 5
/// alternative operators.
pub open spec fn binary_operator_of(t: TokenType, level: nat) -> Option<BinaryOperator> {
    if level <= 1 {
        match t {
            TokenType::Operator(Op::Asterisk) => Some(BinaryOperator::Multiplication),
            TokenType::Operator(Op::Slash) => Some(BinaryOperator::Division),
            TokenType::Operator(Op::Modulo) => Some(BinaryOperator::Modulo),
            _ => None,
        }
    } else if level == 2 {
        match t {
            TokenType::Operator(Op::Plus) => Some(BinaryOperator::Addition),
            TokenType::Operator(Op::Minus) => Some(BinaryOperator::Subtraction),
            _ => None,
        }
    } else if level == 3 {
        match t {
            TokenType::Operator(Op::DoubleEqual) => Some(BinaryOperator::Equal),
            TokenType::Operator(Op::Unequal) => Some(BinaryOperator::Unequal),
            TokenType::Operator(Op::Lesser) => Some(BinaryOperator::Lesser),
            TokenType::Operator(Op::LesserEqual) => Some(BinaryOperator::LesserEqual),
            TokenType::Operator(Op::Greater) => Some(BinaryOperator::Greater),
            TokenType::Operator(Op::GreaterEqual) => Some(BinaryOperator::GreaterEqual),
            _ => None,
        }
    } else if level == 4 {
        match t {
            TokenType::Operator(Op::And) => Some(BinaryOperator::And),
            _ => None,
        }
    } else {
        match t {
            TokenType::Operator(Op::Or) => Some(BinaryOperator::Or),
            _ => None,
        }
    }
}

/// Consuming a binary operator of the given precedence level.
#[verifier::opaque]
pub open spec fn spec_parse_binary_operators(e: ParseEnv, s: ParseState, level: nat) -> (
    ParseState,
    Option<BinaryOperator>,
) {
    match binary_operator_of(spec_curr(e, s).token_type, level) {
        Some(op) => (spec_pop(e, s), Some(op)),
        None => (s, None),
    }
}

/// The operand of a binary operation of the given level: an expression of
/// the level below.
pub open spec fn spec_parse_binary_operand(e: ParseEnv, s: ParseState, level: nat) -> Parsed<
    ExprModel,
>
    decreases remaining(e, s), 21 + 3 * level,
{
    if level <= 1 {
        spec_parse_unary_operator_expression(e, s)
    } else {
        spec_parse_binary_level(e, s, (level - 1) as nat)
    }
}

/// level_expression
///     = operand, {level_operators, operand}
///     ;
/// Operations of one level associate to the left.
pub open spec fn spec_parse_binary_level(e: ParseEnv, s: ParseState, level: nat) -> Parsed<
    ExprModel,
>
    decreases remaining(e, s), 22 + 3 * level,
{
    let (s1, r) = spec_parse_binary_operand(e, s, level);
    match r {
        Ok(Some(lhs)) => if !not_behind(s, s1) {
            (s1, Ok(None))
        } else {
            spec_parse_binary_tail(e, s1, level, lhs)
        },
        _ => (s1, r),
    }
}

/// The operations that follow the left-hand side `lhs`.
pub open spec fn spec_parse_binary_tail(
    e: ParseEnv,
    s: ParseState,
    level: nat,
    lhs: ExprModel,
) -> Parsed<ExprModel>
    decreases remaining(e, s), 21 + 3 * level,
{
    proof {
        reveal(spec_parse_binary_operators);
    }
    let (s1, op) = spec_parse_binary_operators(e, s, level);
    match op {
        None => (s1, Ok(Some(lhs))),
        Some(o) => {
            let (s2, r) = spec_parse_binary_operand(e, s1, level);
            match r {
                Err(x) => (s2, Err(x)),
                Ok(None) => fail_at(s2, ErroVar::BinaryOperatorMissingRHS),
                Ok(Some(rhs)) => if !not_behind(s1, s2) {
                    (s2, Ok(None))
                } else {
                    spec_parse_binary_tail(
                        e,
                        s2,
                        level,
                        ExprModel::Binary { lhs: Box::new(lhs), operator: o, rhs: Box::new(rhs) },
                    )
                },
            }
        },
    }
}


/// The operators of the conjunction and alternative levels are single
/// tokens: consuming one is consuming that operator token.
pub proof fn lemma_logical_operator(e: ParseEnv, s: ParseState, level: nat)
    requires
        level == 4 || level == 5,
    ensures
        spec_parse_binary_operators(e, s, level) == ({
            let op = if level == 4 { Op::And } else { Op::Or };
            let found = if level == 4 { BinaryOperator::And } else { BinaryOperator::Or };
            let (s1, b) = spec_operator(e, s, op);
            (s1, if b { Some(found) } else { None })
        }),
{
    reveal(spec_parse_binary_operators);
    reveal(spec_operator);
}

/// Unfolds the operand of a binary operation of the given level.
pub proof fn lemma_binary_operand(e: ParseEnv, s: ParseState, level: nat)
    ensures
        spec_parse_binary_operand(e, s, level) == if level <= 1 {
            spec_parse_unary_operator_expression(e, s)
        } else {
            spec_parse_binary_level(e, s, (level - 1) as nat)
        },
{
}

/// mul_div_operators
///     = OP_MULTIPLICATION | OP_DIVISION | OP_REMAINDER
///     ;
fn parse_mul_div_operators(p: &mut Parser) -> (r: OptRes<BinaryOperator>)
    ensures
        parsed(*old(p), *final(p), r, {
            let (s, o) = spec_parse_binary_operators(old(p).env(), old(p).state(), 1);
            (s, Ok(o))
        }),
{
    proof {
        reveal(spec_parse_binary_operators);
    }
    match p.curr().token_type {
        TokenType::Operator(Op::Asterisk) => {
            p.pop();
            Ok(Some(BinaryOperator::Multiplication))
        },
        TokenType::Operator(Op::Slash) => {
            p.pop();
            Ok(Some(BinaryOperator::Division))
        },
        TokenType::Operator(Op::Modulo) => {
            p.pop();
            Ok(Some(BinaryOperator::Modulo))
        },
        _ => Ok(None),
    }
}

/// add_sub_operators
///     = OP_PLUS | OP_MINUS
///     ;
fn parse_add_sub_operators(p: &mut Parser) -> (r: OptRes<BinaryOperator>)
    ensures
        parsed(*old(p), *final(p), r, {
            let (s, o) = spec_parse_binary_operators(old(p).env(), old(p).state(), 2);
            (s, Ok(o))
        }),
{
    proof {
        reveal(spec_parse_binary_operators);
    }
    match p.curr().token_type {
        TokenType::Operator(Op::Plus) => {
            p.pop();
            Ok(Some(BinaryOperator::Addition))
        },
        TokenType::Operator(Op::Minus) => {
            p.pop();
            Ok(Some(BinaryOperator::Subtraction))
        },
        _ => Ok(None),
    }
}

/// comparison_operators
///     = OP_EQUAL | OP_UNEQUAL | OP_LESSER | OP_LESSER_EQUAL | OP_GREATER | OP_GREATER_EQUAL
///     ;
fn parse_comparison_operators(p: &mut Parser) -> (r: OptRes<BinaryOperator>)
    ensures
        parsed(*old(p), *final(p), r, {
            let (s, o) = spec_parse_binary_operators(old(p).env(), old(p).state(), 3);
            (s, Ok(o))
        }),
{
    proof {
        reveal(spec_parse_binary_operators);
    }
    match p.curr().token_type {
        TokenType::Operator(Op::DoubleEqual) => {
            p.pop();
            Ok(Some(BinaryOperator::Equal))
        },
        TokenType::Operator(Op::Unequal) => {
            p.pop();
            Ok(Some(BinaryOperator::Unequal))
        },
        TokenType::Operator(Op::Lesser) => {
            p.pop();
            Ok(Some(BinaryOperator::Lesser))
        },
        TokenType::Operator(Op::LesserEqual) => {
            p.pop();
            Ok(Some(BinaryOperator::LesserEqual))
        },
        TokenType::Operator(Op::Greater) => {
            p.pop();
            Ok(Some(BinaryOperator::Greater))
        },
        TokenType::Operator(Op::GreaterEqual) => {
            p.pop();
            Ok(Some(BinaryOperator::GreaterEqual))
        },
        _ => Ok(None),
    }
}

/// mul_div_expression
///     = unary_operator_expression, {mul_div_operators, unary_operator_expression}
///     ;
fn parse_mul_div_expression(p: &mut Parser) -> (r: OptRes<Expression>)
    ensures
        parsed(
            *old(p),
            *final(p),
            opt_expr_model(r),
            spec_parse_binary_level(old(p).env(), old(p).state(), 1),
        ),
    decreases remaining(old(p).env(), old(p).state()), 25int,
{
    proof {
        lemma_binary_operand(p.env(), p.state(), 1);
    }
    if let Some(mut lhs) = parse_unary_operator_expression(p)? {
        loop
            invariant
                p.env() == old(p).env(),
                spec_parse_binary_tail(p.env(), p.state(), 1, expr_model(lhs))
                    == spec_parse_binary_level(old(p).env(), old(p).state(), 1),
                advance(old(p).env(), old(p).state(), p.state(), true),
            decreases remaining(p.env(), p.state()),
        {
            let operator = match parse_mul_div_operators(p)? {
                Some(o) => o,
                None => return Ok(Some(lhs)),
            };
            proof {
                lemma_binary_operand(p.env(), p.state(), 1);
            }
            let rhs = match parse_unary_operator_expression(p)? {
                Some(e) => e,
                None => return Err(p.error(ErroVar::BinaryOperatorMissingRHS)),
            };
            lhs = Expression::Binary(BinaryExpr::new(lhs, operator, rhs));
        }
    } else {
        Ok(None)
    }
}

/// add_sub_expression
///     = mul_div_expression, {add_sub_operators, mul_div_expression}
///     ;
fn parse_add_sub_expression(p: &mut Parser) -> (r: OptRes<Expression>)
    ensures
        parsed(
            *old(p),
            *final(p),
            opt_expr_model(r),
            spec_parse_binary_level(old(p).env(), old(p).state(), 2),
        ),
    decreases remaining(old(p).env(), old(p).state()), 28int,
{
    proof {
        lemma_binary_operand(p.env(), p.state(), 2);
    }
    if let Some(mut lhs) = parse_mul_div_expression(p)? {
        loop
            invariant
                p.env() == old(p).env(),
                spec_parse_binary_tail(p.env(), p.state(), 2, expr_model(lhs))
                    == spec_parse_binary_level(old(p).env(), old(p).state(), 2),
                advance(old(p).env(), old(p).state(), p.state(), true),
            decreases remaining(p.env(), p.state()),
        {
            let operator = match parse_add_sub_operators(p)? {
                Some(o) => o,
                None => return Ok(Some(lhs)),
            };
            proof {
                lemma_binary_operand(p.env(), p.state(), 2);
            }
            let rhs = match parse_mul_div_expression(p)? {
                Some(e) => e,
                None => return Err(p.error(ErroVar::BinaryOperatorMissingRHS)),
            };
            lhs = Expression::Binary(BinaryExpr::new(lhs, operator, rhs));
        }
    } else {
        Ok(None)
    }
}

/// comparison_expression
///     = add_sub_expression, {comparison_operators, add_sub_expression}
///     ;
fn parse_comparison_expression(p: &mut Parser) -> (r: OptRes<Expression>)
    ensures
        parsed(
            *old(p),
            *final(p),
            opt_expr_model(r),
            spec_parse_binary_level(old(p).env(), old(p).state(), 3),
        ),
    decreases remaining(old(p).env(), old(p).state()), 31int,
{
    proof {
        lemma_binary_operand(p.env(), p.state(), 3);
    }
    if let Some(mut lhs) = parse_add_sub_expression(p)? {
        loop
            invariant
                p.env() == old(p).env(),
                spec_parse_binary_tail(p.env(), p.state(), 3, expr_model(lhs))
                    == spec_parse_binary_level(old(p).env(), old(p).state(), 3),
                advance(old(p).env(), old(p).state(), p.state(), true),
            decreases remaining(p.env(), p.state()),
        {
            let operator = match parse_comparison_operators(p)? {
                Some(o) => o,
                None => return Ok(Some(lhs)),
            };
            proof {
                lemma_binary_operand(p.env(), p.state(), 3);
            }
            let rhs = match parse_add_sub_expression(p)? {
                Some(e) => e,
                None => return Err(p.error(ErroVar::BinaryOperatorMissingRHS)),
            };
            lhs = Expression::Binary(BinaryExpr::new(lhs, operator, rhs));
        }
    } else {
        Ok(None)
    }
}

/// logical_conjunction_expression
///     = comparison_expression, {OP_AND, comparison_expression}
///     ;
fn parse_logical_conjunction_expression(p: &mut Parser) -> (r: OptRes<Expression>)
    ensures
        parsed(
            *old(p),
            *final(p),
            opt_expr_model(r),
            spec_parse_binary_level(old(p).env(), old(p).state(), 4),
        ),
    decreases remaining(old(p).env(), old(p).state()), 34int,
{
    proof {
        lemma_binary_operand(p.env(), p.state(), 4);
    }
    if let Some(mut lhs) = parse_comparison_expression(p)? {
        loop
            invariant
                p.env() == old(p).env(),
                spec_parse_binary_tail(p.env(), p.state(), 4, expr_model(lhs))
                    == spec_parse_binary_level(old(p).env(), old(p).state(), 4),
                advance(old(p).env(), old(p).state(), p.state(), true),
            decreases remaining(p.env(), p.state()),
        {
            proof {
                lemma_logical_operator(p.env(), p.state(), 4);
            }
            if !p.operator(Op::And)? {
                return Ok(Some(lhs));
            }
            let operator = BinaryOperator::And;
            proof {
                lemma_binary_operand(p.env(), p.state(), 4);
            }
            let rhs = match parse_comparison_expression(p)? {
                Some(e) => e,
                None => return Err(p.error(ErroVar::BinaryOperatorMissingRHS)),
            };
            lhs = Expression::Binary(BinaryExpr::new(lhs, operator, rhs));
        }
    } else {
        Ok(None)
    }
}

/// logical_alternative_expression
///     = logical_conjunction_expression, {OP_OR, logical_conjunction_expression}
///     ;
pub fn parse_logical_alternative_expression(p: &mut Parser) -> (r: OptRes<Expression>)
    ensures
        parsed(
            *old(p),
            *final(p),
            opt_expr_model(r),
            spec_parse_binary_level(old(p).env(), old(p).state(), 5),
        ),
    decreases remaining(old(p).env(), old(p).state()), 37int,
{
    proof {
        lemma_binary_operand(p.env(), p.state(), 5);
    }
    if let Some(mut lhs) = parse_logical_conjunction_expression(p)? {
        loop
            invariant
                p.env() == old(p).env(),
                spec_parse_binary_tail(p.env(), p.state(), 5, expr_model(lhs))
                    == spec_parse_binary_level(old(p).env(), old(p).state(), 5),
                advance(old(p).env(), old(p).state(), p.state(), true),
            decreases remaining(p.env(), p.state()),
        {
            proof {
                lemma_logical_operator(p.env(), p.state(), 5);
            }
            if !p.operator(Op::Or)? {
                return Ok(Some(lhs));
            }
            let operator = BinaryOperator::Or;
            proof {
                lemma_binary_operand(p.env(), p.state(), 5);
            }
            let rhs = match parse_logical_conjunction_expression(p)? {
                Some(e) => e,
                None => return Err(p.error(ErroVar::BinaryOperatorMissingRHS)),
            };
            lhs = Expression::Binary(BinaryExpr::new(lhs, operator, rhs));
        }
    } else {
        Ok(None)
    }
}

/// `x / d` rounded toward zero, as Rust's integer division does
pub open spec fn truncated_div(x: int, d: int) -> int {
    let q = abs(x) / abs(d);
    if (x < 0) == (d < 0) {
        q
    } else {
        -q
    }
}

/// The remainder of `x / d` taking the sign of `x`, as Rust's `%` does
pub open spec fn truncated_rem(x: int, d: int) -> int {
    let r = abs(x) % abs(d);
    if x < 0 {
        -r
    } else {
        r
    }
}

pub open spec fn abs(x: int) -> int {
    if x < 0 {
        -x
    } else {
        x
    }
}

pub open spec fn fits_i64(x: int) -> bool {
    i64::MIN <= x <= i64::MAX
}

/// An integer result, or `Overflow` where it does not fit in 64 bits
pub open spec fn checked_int(x: int) -> Result<Value, ExecutionError> {
    if fits_i64(x) {
        Ok(Value::Int(x as i64))
    } else {
        Err(ExecutionError { variant: ExecutionErrorVariant::Overflow })
    }
}

pub open spec fn op_error(variant: ExecutionErrorVariant) -> Result<Value, ExecutionError> {
    Err(ExecutionError { variant })
}

/// What a binary operation on two integers evaluates to
pub open spec fn spec_int_op(lhs: i64, rhs: i64, op: BinaryOperator) -> Result<Value, ExecutionError> {
    match op {
        BinaryOperator::Addition => checked_int(lhs + rhs),
        BinaryOperator::Subtraction => checked_int(lhs - rhs),
        BinaryOperator::Multiplication => checked_int(lhs * rhs),
        BinaryOperator::Division => if rhs == 0 {
            op_error(ExecutionErrorVariant::DivisionByZero)
        } else {
            checked_int(truncated_div(lhs as int, rhs as int))
        },
        BinaryOperator::Modulo => if rhs == 0 {
            op_error(ExecutionErrorVariant::DivisionByZero)
        } else if lhs == i64::MIN && rhs == -1 {
            op_error(ExecutionErrorVariant::Overflow)
        } else {
            checked_int(truncated_rem(lhs as int, rhs as int))
        },
        BinaryOperator::Equal => Ok(Value::Bool(lhs == rhs)),
        BinaryOperator::Unequal => Ok(Value::Bool(lhs != rhs)),
        BinaryOperator::Lesser => Ok(Value::Bool(lhs < rhs)),
        BinaryOperator::LesserEqual => Ok(Value::Bool(lhs <= rhs)),
        BinaryOperator::Greater => Ok(Value::Bool(lhs > rhs)),
        BinaryOperator::GreaterEqual => Ok(Value::Bool(lhs >= rhs)),
        _ => op_error(ExecutionErrorVariant::UnsupportedBinaryOperation),
    }
}

/// What a binary operation on two booleans evaluates to
pub open spec fn spec_bool_op(lhs: bool, rhs: bool, op: BinaryOperator) -> Result<Value, ExecutionError> {
    match op {
        BinaryOperator::Equal => Ok(Value::Bool(lhs == rhs)),
        BinaryOperator::Unequal => Ok(Value::Bool(lhs != rhs)),
        BinaryOperator::And => Ok(Value::Bool(lhs && rhs)),
        BinaryOperator::Or => Ok(Value::Bool(lhs || rhs)),
        _ => op_error(ExecutionErrorVariant::UnsupportedBinaryOperation),
    }
}

fn overflow() -> (r: Result<Value, ExecutionError>)
    ensures
        r == op_error(ExecutionErrorVariant::Overflow),
{
    Err(ExecutionError::new(ExecutionErrorVariant::Overflow))
}

fn wrap_int(r: Option<i64>) -> (v: Result<Value, ExecutionError>)
    ensures
        v == (match r {
            Some(x) => Ok(Value::Int(x)),
            None => op_error(ExecutionErrorVariant::Overflow),
        }),
{
    match r {
        Some(x) => Ok(Value::Int(x)),
        None => overflow(),
    }
}

/// Applies a binary operator to two integers: arithmetic is checked, and
/// division and remainder round toward zero.
pub fn int_op(lhs: i64, rhs: i64, op: BinaryOperator) -> (r: Result<Value, ExecutionError>)
    ensures
        r == spec_int_op(lhs, rhs, op),
{
    match op {
        BinaryOperator::Addition => wrap_int(lhs.checked_add(rhs)),
        BinaryOperator::Subtraction => wrap_int(lhs.checked_sub(rhs)),
        BinaryOperator::Multiplication => wrap_int(lhs.checked_mul(rhs)),
        BinaryOperator::Division => {
            if rhs == 0 {
                return Err(ExecutionError::new(ExecutionErrorVariant::DivisionByZero));
            }
            wrap_int(lhs.checked_div(rhs))
        },
        BinaryOperator::Modulo => {
            if rhs == 0 {
                return Err(ExecutionError::new(ExecutionErrorVariant::DivisionByZero));
            }
            wrap_int(lhs.checked_rem(rhs))
        },
        BinaryOperator::Equal => Ok(Value::Bool(lhs == rhs)),
        BinaryOperator::Unequal => Ok(Value::Bool(lhs != rhs)),
        BinaryOperator::Lesser => Ok(Value::Bool(lhs < rhs)),
        BinaryOperator::LesserEqual => Ok(Value::Bool(lhs <= rhs)),
        BinaryOperator::Greater => Ok(Value::Bool(lhs > rhs)),
        BinaryOperator::GreaterEqual => Ok(Value::Bool(lhs >= rhs)),
        _ => Err(ExecutionError::new(ExecutionErrorVariant::UnsupportedBinaryOperation)),
    }
}

/// Applies a binary operator to two booleans
pub fn bool_op(lhs: bool, rhs: bool, op: BinaryOperator) -> (r: Result<Value, ExecutionError>)
    ensures
        r == spec_bool_op(lhs, rhs, op),
{
    match op {
        BinaryOperator::Equal => Ok(Value::Bool(lhs == rhs)),
        BinaryOperator::Unequal => Ok(Value::Bool(lhs != rhs)),
        BinaryOperator::And => Ok(Value::Bool(lhs && rhs)),
        BinaryOperator::Or => Ok(Value::Bool(lhs || rhs)),
        _ => Err(ExecutionError::new(ExecutionErrorVariant::UnsupportedBinaryOperation)),
    }
}

/// Applies a binary operator to two strings: `+` concatenates, `==` and
/// `!=` compare, anything else is unsupported.
pub fn string_op(lhs: String, rhs: String, op: BinaryOperator) -> (r: Result<Value, ExecutionError>)
    ensures
        op == BinaryOperator::Addition ==> (r matches Ok(Value::String(s)) && s@ == lhs@ + rhs@),
        op == BinaryOperator::Equal ==> r == Ok::<Value, ExecutionError>(Value::Bool(lhs@ == rhs@)),
        op == BinaryOperator::Unequal ==> r == Ok::<Value, ExecutionError>(Value::Bool(lhs@ != rhs@)),
        !(op == BinaryOperator::Addition || op == BinaryOperator::Equal
            || op == BinaryOperator::Unequal) ==> r == op_error(
            ExecutionErrorVariant::UnsupportedBinaryOperation,
        ),
{
    match op {
        BinaryOperator::Addition => Ok(Value::String(lhs.concat(rhs.as_str()))),
        BinaryOperator::Equal => Ok(Value::Bool(lhs == rhs)),
        BinaryOperator::Unequal => Ok(Value::Bool(lhs != rhs)),
        _ => Err(ExecutionError::new(ExecutionErrorVariant::UnsupportedBinaryOperation)),
    }
}

} // verus!
