//! What the grammar's parsing steps and the value operators do, stated in
//! terms of the tokens and of the parses of their parts.
use vstd::prelude::*;

use super::expressions::assignment::{
    spec_parse_assignment_tail, spec_parse_variable_assignment_expression,
};
use super::expressions::binary::{
    abs, binary_operator_of, fits_i64, spec_bool_op, spec_int_op, truncated_div, truncated_rem, spec_parse_binary_level, spec_parse_binary_operand,
    spec_parse_binary_tail, BinaryOperator,
};
use super::expressions::if_else::spec_parse_if_else_expression;
use super::expressions::list_access::{spec_eval_index, spec_eval_range};
use super::expressions::unary::{spec_unary_op, UnaryOperator, FLOAT_SIGN_BIT};
use super::expressions::for_expr::spec_parse_for_expression;
use super::expressions::declaration::spec_parse_variable_declaration;
use super::expressions::function_call::spec_parse_function_call;
use super::expressions::list::spec_parse_list_expression;
use super::expressions::list_access::spec_parse_list_access_expression;
use super::expressions::return_expr::spec_parse_return;
use super::expressions::statement::{spec_parse_code_block, spec_parse_statement, spec_parse_statements};
use super::expressions::unary::spec_parse_unary_operator_expression;
use super::expressions::list_access::spec_parse_index_or_range_access;
use super::expressions::{
    spec_parse_bracket_expression, AccessModel, spec_parse_control_flow_expression, spec_parse_expression_list,
    StatementModel,
};
use super::types::spec_parse_type;
use super::function::spec_parse_function_def;
use super::DataType;
use super::expressions::while_expr::spec_parse_while_expression;
use super::expressions::{spec_parse_expression, ExprModel};
use super::utility::{
    spec_expect_keyword, spec_expect_operator, spec_identifier, spec_keyword, spec_operator, Kw, Op,
};
use super::Value;
use crate::interpreter::{ExecutionError, ExecutionErrorVariant};
use crate::parser::token::TokenType;
use crate::parser::{not_behind, spec_curr, spec_pop, ParseEnv, ParseState};

verus! {

/// The precedence level of a binary operator: 1 binds tightest
/// (`*`, `/`, `%`), then 2 (`+`, `-`), 3 (comparisons), 4 (`&&`) and 5
/// (`||`).
pub open spec fn precedence(op: BinaryOperator) -> nat {
    match op {
        BinaryOperator::Multiplication | BinaryOperator::Division | BinaryOperator::Modulo => 1,
        BinaryOperator::Addition | BinaryOperator::Subtraction => 2,
        BinaryOperator::Equal | BinaryOperator::Unequal | BinaryOperator::Lesser
        | BinaryOperator::LesserEqual | BinaryOperator::Greater
        | BinaryOperator::GreaterEqual => 3,
        BinaryOperator::And => 4,
        BinaryOperator::Or => 5,
    }
}

/// The operator token that stands for a binary operator.
pub open spec fn operator_token(op: BinaryOperator) -> Op {
    match op {
        BinaryOperator::Multiplication => Op::Asterisk,
        BinaryOperator::Division => Op::Slash,
        BinaryOperator::Modulo => Op::Modulo,
        BinaryOperator::Addition => Op::Plus,
        BinaryOperator::Subtraction => Op::Minus,
        BinaryOperator::Equal => Op::DoubleEqual,
        BinaryOperator::Unequal => Op::Unequal,
        BinaryOperator::Lesser => Op::Lesser,
        BinaryOperator::LesserEqual => Op::LesserEqual,
        BinaryOperator::Greater => Op::Greater,
        BinaryOperator::GreaterEqual => Op::GreaterEqual,
        BinaryOperator::And => Op::And,
        BinaryOperator::Or => Op::Or,
    }
}

/// Each precedence level consumes exactly the tokens of its own operators:
/// a token is read as operator `op` at level `level` just when it is the
/// token of `op` and `op` has that precedence.
pub proof fn law_operator_levels(t: TokenType, level: nat, op: BinaryOperator)
    requires
        1 <= level <= 5,
    ensures
        binary_operator_of(t, level) == Some(op) <==> (t == TokenType::Operator(operator_token(op))
            && precedence(op) == level),
{
}

/// The precedence levels form a chain: the operands of `||` are `&&`
/// expressions, theirs comparisons, theirs additive expressions, theirs
/// multiplicative expressions, and theirs unary expressions. An
/// assignment's target is an `||` expression, which stands alone where no
/// `=` follows it.
pub proof fn law_precedence_chain(e: ParseEnv, s: ParseState)
    ensures
        spec_parse_binary_operand(e, s, 5) == spec_parse_binary_level(e, s, 4),
        spec_parse_binary_operand(e, s, 4) == spec_parse_binary_level(e, s, 3),
        spec_parse_binary_operand(e, s, 3) == spec_parse_binary_level(e, s, 2),
        spec_parse_binary_operand(e, s, 2) == spec_parse_binary_level(e, s, 1),
        spec_parse_binary_operand(e, s, 1) == spec_parse_unary_operator_expression(e, s),
        ({
            let (s1, r) = spec_parse_binary_level(e, s, 5);
            r matches Ok(Some(x)) ==> (not_behind(s, s1) && spec_curr(e, s1).token_type
                != TokenType::Operator(Op::Equal) ==> spec_parse_variable_assignment_expression(e, s)
                == (s1, Ok::<Option<ExprModel>, crate::parser::ParserError>(Some(x))))
        }),
{
    reveal(spec_operator);
}

/// A binary operation binds its left-hand side and the first operand of
/// the level below that follows its operator: where the operand of level
/// `level` is followed by an operator of that level, then by a second
/// operand, and then by no operator of that level, the result is that one
/// operation.
pub proof fn law_single_binary_operation(e: ParseEnv, s: ParseState, level: nat)
    requires
        1 <= level <= 5,
        spec_parse_binary_operand(e, s, level).1 matches Ok(Some(_)),
        not_behind(s, spec_parse_binary_operand(e, s, level).0),
        binary_operator_of(spec_curr(e, spec_parse_binary_operand(e, s, level).0).token_type, level)
            is Some,
        spec_parse_binary_operand(
            e,
            spec_pop(e, spec_parse_binary_operand(e, s, level).0),
            level,
        ).1 matches Ok(Some(_)),
        not_behind(
            spec_pop(e, spec_parse_binary_operand(e, s, level).0),
            spec_parse_binary_operand(
                e,
                spec_pop(e, spec_parse_binary_operand(e, s, level).0),
                level,
            ).0,
        ),
        binary_operator_of(
            spec_curr(
                e,
                spec_parse_binary_operand(
                    e,
                    spec_pop(e, spec_parse_binary_operand(e, s, level).0),
                    level,
                ).0,
            ).token_type,
            level,
        ) is None,
    ensures
        ({
            let (s1, l) = spec_parse_binary_operand(e, s, level);
            let op = binary_operator_of(spec_curr(e, s1).token_type, level).unwrap();
            let (s2, r) = spec_parse_binary_operand(e, spec_pop(e, s1), level);
            spec_parse_binary_level(e, s, level) == (
                s2,
                Ok::<Option<ExprModel>, crate::parser::ParserError>(
                    Some(
                        ExprModel::Binary {
                            lhs: Box::new(l->Ok_0->Some_0),
                            operator: op,
                            rhs: Box::new(r->Ok_0->Some_0),
                        },
                    ),
                ),
            )
        }),
{
    reveal(super::expressions::binary::spec_parse_binary_operators);
    let (s1, l) = spec_parse_binary_operand(e, s, level);
    let (s2, r) = spec_parse_binary_operand(e, spec_pop(e, s1), level);
    let m = ExprModel::Binary {
        lhs: Box::new(l->Ok_0->Some_0),
        operator: binary_operator_of(spec_curr(e, s1).token_type, level).unwrap(),
        rhs: Box::new(r->Ok_0->Some_0),
    };
    assert(spec_parse_binary_tail(e, s2, level, m) == (
        s2,
        Ok::<Option<ExprModel>, crate::parser::ParserError>(Some(m)),
    ));
}

/// A while loop is the condition parsed after `while` and, as its body,
/// exactly the statements of the code block that follows the condition.
pub proof fn law_while_parts(e: ParseEnv, s: ParseState)
    requires
        spec_curr(e, s).token_type == TokenType::Keyword(Kw::While),
        spec_parse_expression(e, spec_pop(e, s)).1 matches Ok(Some(_)),
        not_behind(spec_pop(e, s), spec_parse_expression(e, spec_pop(e, s)).0),
        spec_parse_code_block(e, spec_parse_expression(e, spec_pop(e, s)).0).1 matches Ok(Some(_)),
    ensures
        ({
            let (s2, c) = spec_parse_expression(e, spec_pop(e, s));
            let (s3, b) = spec_parse_code_block(e, s2);
            spec_parse_while_expression(e, s) == (
                s3,
                Ok::<Option<ExprModel>, crate::parser::ParserError>(
                    Some(
                        ExprModel::While {
                            condition: Box::new(c->Ok_0->Some_0),
                            body: b->Ok_0->Some_0,
                        },
                    ),
                ),
            )
        }),
{
    reveal(spec_keyword);
}

/// An if expression is the condition parsed after `if`; its true case is
/// exactly the statements of the code block after the condition, and its
/// false case those of the code block after `else`, if `else` follows.
pub proof fn law_if_else_parts(e: ParseEnv, s: ParseState)
    requires
        spec_curr(e, s).token_type == TokenType::Keyword(Kw::If),
        spec_parse_expression(e, spec_pop(e, s)).1 matches Ok(Some(_)),
        not_behind(spec_pop(e, s), spec_parse_expression(e, spec_pop(e, s)).0),
        spec_parse_code_block(e, spec_parse_expression(e, spec_pop(e, s)).0).1 matches Ok(Some(_)),
        not_behind(
            spec_parse_expression(e, spec_pop(e, s)).0,
            spec_parse_code_block(e, spec_parse_expression(e, spec_pop(e, s)).0).0,
        ),
    ensures
        ({
            let (s2, c) = spec_parse_expression(e, spec_pop(e, s));
            let (s3, t) = spec_parse_code_block(e, s2);
            let (s5, f) = spec_parse_code_block(e, spec_pop(e, s3));
            &&& spec_curr(e, s3).token_type != TokenType::Keyword(Kw::Else)
                ==> spec_parse_if_else_expression(e, s) == (
                s3,
                Ok::<Option<ExprModel>, crate::parser::ParserError>(
                    Some(
                        ExprModel::IfElse {
                            condition: Box::new(c->Ok_0->Some_0),
                            true_case: t->Ok_0->Some_0,
                            false_case: None,
                        },
                    ),
                ),
            )
            &&& (spec_curr(e, s3).token_type == TokenType::Keyword(Kw::Else) && (f matches Ok(
                Some(_),
            ))) ==> spec_parse_if_else_expression(e, s) == (
                s5,
                Ok::<Option<ExprModel>, crate::parser::ParserError>(
                    Some(
                        ExprModel::IfElse {
                            condition: Box::new(c->Ok_0->Some_0),
                            true_case: t->Ok_0->Some_0,
                            false_case: Some(f->Ok_0->Some_0),
                        },
                    ),
                ),
            )
        }),
{
    reveal(spec_keyword);
}

/// The right-hand side of an assignment is a whole expression, parsed from
/// the token after `=`: where no further `=` follows it, the result assigns
/// that expression to the target.
pub proof fn law_assignment_value(e: ParseEnv, s: ParseState, target: ExprModel)
    requires
        spec_curr(e, s).token_type == TokenType::Operator(Op::Equal),
        spec_parse_expression(e, spec_pop(e, s)).1 matches Ok(Some(_)),
        not_behind(spec_pop(e, s), spec_parse_expression(e, spec_pop(e, s)).0),
        spec_curr(e, spec_parse_expression(e, spec_pop(e, s)).0).token_type != TokenType::Operator(
            Op::Equal,
        ),
    ensures
        ({
            let (s2, v) = spec_parse_expression(e, spec_pop(e, s));
            spec_parse_assignment_tail(e, s, target) == (
                s2,
                Ok::<Option<ExprModel>, crate::parser::ParserError>(
                    Some(
                        ExprModel::Assignment {
                            identifier: Box::new(target),
                            expression: Box::new(v->Ok_0->Some_0),
                        },
                    ),
                ),
            )
        }),
{
    reveal(spec_operator);
    let (s2, v) = spec_parse_expression(e, spec_pop(e, s));
    let m = ExprModel::Assignment {
        identifier: Box::new(target),
        expression: Box::new(v->Ok_0->Some_0),
    };
    assert(spec_parse_assignment_tail(e, s2, m) == (
        s2,
        Ok::<Option<ExprModel>, crate::parser::ParserError>(Some(m)),
    ));
}

/// Boolean operators: `==` and `!=` compare, `&&` and `||` are conjunction
/// and disjunction, and every other operator is unsupported on booleans.
pub proof fn law_bool_op(lhs: bool, rhs: bool, op: BinaryOperator)
    ensures
        spec_bool_op(lhs, rhs, BinaryOperator::Equal) == Ok::<Value, ExecutionError>(
            Value::Bool(lhs == rhs),
        ),
        spec_bool_op(lhs, rhs, BinaryOperator::Unequal) == Ok::<Value, ExecutionError>(
            Value::Bool(lhs != rhs),
        ),
        spec_bool_op(lhs, rhs, BinaryOperator::And) == Ok::<Value, ExecutionError>(
            Value::Bool(lhs && rhs),
        ),
        spec_bool_op(lhs, rhs, BinaryOperator::Or) == Ok::<Value, ExecutionError>(
            Value::Bool(lhs || rhs),
        ),
        spec_bool_op(lhs, rhs, BinaryOperator::Equal) != spec_bool_op(
            lhs,
            rhs,
            BinaryOperator::Unequal,
        ),
        !(op == BinaryOperator::Equal || op == BinaryOperator::Unequal || op == BinaryOperator::And
            || op == BinaryOperator::Or) ==> spec_bool_op(lhs, rhs, op) == Err::<
            Value,
            ExecutionError,
        >(ExecutionError { variant: ExecutionErrorVariant::UnsupportedBinaryOperation }),
{
}

/// Integer operators: comparisons compare; `+`, `-` and `*` give the
/// mathematical result where it fits in 64 bits and `Overflow` where not;
/// `&&` and `||` are unsupported on integers.
pub proof fn law_int_op_arithmetic(lhs: i64, rhs: i64)
    ensures
        spec_int_op(lhs, rhs, BinaryOperator::Equal) == Ok::<Value, ExecutionError>(
            Value::Bool(lhs == rhs),
        ),
        spec_int_op(lhs, rhs, BinaryOperator::Unequal) == Ok::<Value, ExecutionError>(
            Value::Bool(lhs != rhs),
        ),
        spec_int_op(lhs, rhs, BinaryOperator::Lesser) == Ok::<Value, ExecutionError>(
            Value::Bool(lhs < rhs),
        ),
        spec_int_op(lhs, rhs, BinaryOperator::LesserEqual) == Ok::<Value, ExecutionError>(
            Value::Bool(lhs <= rhs),
        ),
        spec_int_op(lhs, rhs, BinaryOperator::Greater) == Ok::<Value, ExecutionError>(
            Value::Bool(lhs > rhs),
        ),
        spec_int_op(lhs, rhs, BinaryOperator::GreaterEqual) == Ok::<Value, ExecutionError>(
            Value::Bool(lhs >= rhs),
        ),
        i64::MIN <= lhs + rhs <= i64::MAX ==> (spec_int_op(lhs, rhs, BinaryOperator::Addition) matches Ok(
            Value::Int(v),
        ) && v == lhs + rhs),
        i64::MIN <= lhs - rhs <= i64::MAX ==> (spec_int_op(lhs, rhs, BinaryOperator::Subtraction) matches Ok(
            Value::Int(v),
        ) && v == lhs - rhs),
        i64::MIN <= lhs * rhs <= i64::MAX ==> (spec_int_op(
            lhs,
            rhs,
            BinaryOperator::Multiplication,
        ) matches Ok(Value::Int(v)) && v == lhs * rhs),
        !(i64::MIN <= lhs + rhs <= i64::MAX) ==> spec_int_op(lhs, rhs, BinaryOperator::Addition)
            == Err::<Value, ExecutionError>(ExecutionError { variant: ExecutionErrorVariant::Overflow }),
        !(i64::MIN <= lhs - rhs <= i64::MAX) ==> spec_int_op(lhs, rhs, BinaryOperator::Subtraction)
            == Err::<Value, ExecutionError>(ExecutionError { variant: ExecutionErrorVariant::Overflow }),
        !(i64::MIN <= lhs * rhs <= i64::MAX) ==> spec_int_op(
            lhs,
            rhs,
            BinaryOperator::Multiplication,
        ) == Err::<Value, ExecutionError>(ExecutionError { variant: ExecutionErrorVariant::Overflow }),
        spec_int_op(lhs, rhs, BinaryOperator::And) == Err::<Value, ExecutionError>(
            ExecutionError { variant: ExecutionErrorVariant::UnsupportedBinaryOperation },
        ),
        spec_int_op(lhs, rhs, BinaryOperator::Or) == Err::<Value, ExecutionError>(
            ExecutionError { variant: ExecutionErrorVariant::UnsupportedBinaryOperation },
        ),
{
}

proof fn lemma_quotient_bound(a: int, b: int)
    by (nonlinear_arith)
    requires
        a >= 0,
        b >= 1,
    ensures
        0 <= a / b <= a,
        0 <= a % b < b,
        a == b * (a / b) + a % b,
{
}

/// Integer division and remainder: by zero they fail with
/// `DivisionByZero`; `i64::MIN` by `-1` overflows; otherwise the quotient
/// `q` and remainder `r` satisfy `q * rhs + r == lhs` with `|r| < |rhs|` and
/// `r` zero or of the sign of `lhs` (division rounds toward zero).
pub proof fn law_int_op_division(lhs: i64, rhs: i64)
    ensures
        rhs == 0 ==> spec_int_op(lhs, rhs, BinaryOperator::Division) == Err::<Value, ExecutionError>(
            ExecutionError { variant: ExecutionErrorVariant::DivisionByZero },
        ) && spec_int_op(lhs, rhs, BinaryOperator::Modulo) == Err::<Value, ExecutionError>(
            ExecutionError { variant: ExecutionErrorVariant::DivisionByZero },
        ),
        lhs == i64::MIN && rhs == -1 ==> spec_int_op(lhs, rhs, BinaryOperator::Division) == Err::<
            Value,
            ExecutionError,
        >(ExecutionError { variant: ExecutionErrorVariant::Overflow }) && spec_int_op(
            lhs,
            rhs,
            BinaryOperator::Modulo,
        ) == Err::<Value, ExecutionError>(ExecutionError { variant: ExecutionErrorVariant::Overflow }),
        rhs != 0 && !(lhs == i64::MIN && rhs == -1) ==> {
            &&& spec_int_op(lhs, rhs, BinaryOperator::Division) matches Ok(Value::Int(q))
            &&& spec_int_op(lhs, rhs, BinaryOperator::Modulo) matches Ok(Value::Int(r))
            &&& q * rhs + r == lhs
            &&& abs(r as int) < abs(rhs as int)
            &&& (r == 0 || (r < 0) == (lhs < 0))
        },
{
    if rhs != 0 && !(lhs == i64::MIN && rhs == -1) {
        let a = abs(lhs as int);
        let b = abs(rhs as int);
        lemma_quotient_bound(a, b);
        let q = truncated_div(lhs as int, rhs as int);
        let r = truncated_rem(lhs as int, rhs as int);
        assert(q * rhs + r == lhs) by (nonlinear_arith)
            requires
                a == abs(lhs as int),
                b == abs(rhs as int),
                a == b * (a / b) + a % b,
                q == (if (lhs < 0) == (rhs < 0) { a / b } else { -(a / b) }),
                r == (if lhs < 0 { -(a % b) } else { a % b }),
        ;
        assert(fits_i64(q)) by {
            if a / b == a && a == 0x8000_0000_0000_0000 {
                assert(b == 1) by (nonlinear_arith)
                    requires
                        a == b * (a / b) + a % b,
                        a / b == a,
                        a > 0,
                        b >= 1,
                        0 <= a % b,
                ;
            }
        }
    }
}

/// Unary operators: `-` negates integers and flips the sign of floats, `!`
/// inverts booleans; applying the same operator twice gives the operand
/// back; any other pairing is unsupported.
pub proof fn law_unary_op(v: i64, b: bool, bits: u64, x: Value)
    ensures
        v != i64::MIN ==> (spec_unary_op(UnaryOperator::AlgebraicNegation, Value::Int(v)) matches Ok(
            Value::Int(w),
        ) && w == -v),
        v != i64::MIN ==> spec_unary_op(UnaryOperator::AlgebraicNegation, Value::Int(-v as i64))
            == Ok::<Value, ExecutionError>(Value::Int(v)),
        spec_unary_op(UnaryOperator::LogicalNegation, Value::Bool(b)) == Ok::<Value, ExecutionError>(
            Value::Bool(!b),
        ),
        spec_unary_op(UnaryOperator::AlgebraicNegation, Value::Float(bits)) matches Ok(
            Value::Float(n),
        ) && n != bits && spec_unary_op(UnaryOperator::AlgebraicNegation, Value::Float(n)) == Ok::<
            Value,
            ExecutionError,
        >(Value::Float(bits)),
        x is Bool || x is String || x is List || x is Nothing ==> spec_unary_op(
            UnaryOperator::AlgebraicNegation,
            x,
        ) == Err::<Value, ExecutionError>(
            ExecutionError { variant: ExecutionErrorVariant::UnsupportedUnaryOperation },
        ),
        !(x is Bool) ==> spec_unary_op(UnaryOperator::LogicalNegation, x) == Err::<Value, ExecutionError>(
            ExecutionError { variant: ExecutionErrorVariant::UnsupportedUnaryOperation },
        ),
{
    let n = bits ^ FLOAT_SIGN_BIT;
    assert(n != bits && (n ^ FLOAT_SIGN_BIT) == bits) by (bit_vector)
        requires
            n == bits ^ 0x8000_0000_0000_0000u64,
    ;
}

/// Indexing and slicing: in range, an index gives the item at it and the
/// one-item range from it; slicing the whole list gives the list; two
/// adjacent ranges together give the range that spans both.
pub proof fn law_list_access<T>(list: Seq<T>, i: i64, a: i64, b: i64, c: i64)
    ensures
        0 <= i < list.len() ==> spec_eval_index(list, Value::Int(i)) == Ok::<T, ExecutionError>(
            list[i as int],
        ),
        0 <= i < list.len() && i < i64::MAX ==> spec_eval_range(
            list,
            Value::Int(i),
            Value::Int((i + 1) as i64),
        ) == Ok::<
            Seq<T>,
            ExecutionError,
        >(seq![list[i as int]]),
        0 < list.len() <= i64::MAX ==> spec_eval_range(
            list,
            Value::Int(0),
            Value::Int(list.len() as i64),
        ) == Ok::<Seq<T>, ExecutionError>(list),
        0 <= a < b < c <= list.len() ==> ({
            &&& spec_eval_range(list, Value::Int(a), Value::Int(b)) matches Ok(x)
            &&& spec_eval_range(list, Value::Int(b), Value::Int(c)) matches Ok(y)
            &&& spec_eval_range(list, Value::Int(a), Value::Int(c)) == Ok::<Seq<T>, ExecutionError>(
                x + y,
            )
        }),
        !(0 <= i < list.len()) ==> spec_eval_index(list, Value::Int(i)) == Err::<T, ExecutionError>(
            ExecutionError { variant: ExecutionErrorVariant::IndexOutOfBounds },
        ),
{
    if 0 <= i < list.len() {
        assert(list.subrange(i as int, i + 1) =~= seq![list[i as int]]);
    }
    if 0 < list.len() <= i64::MAX {
        assert(list.subrange(0, list.len() as int) =~= list);
    }
    if 0 <= a < b < c <= list.len() {
        assert(list.subrange(a as int, b as int) + list.subrange(b as int, c as int) =~= list.subrange(
            a as int,
            c as int,
        ));
    }
}

/// A for loop is its variable (the identifier after `for`), its provider
/// (the expression after `in`) and, as its body, exactly the statements of
/// the code block after the provider.
pub proof fn law_for_parts(e: ParseEnv, s: ParseState, variable: String)
    requires
        spec_curr(e, s).token_type == TokenType::Keyword(Kw::For),
        spec_curr(e, spec_pop(e, s)).token_type == TokenType::Identifier(variable),
        spec_curr(e, spec_pop(e, spec_pop(e, s))).token_type == TokenType::Keyword(Kw::In),
        not_behind(spec_pop(e, s), spec_pop(e, spec_pop(e, spec_pop(e, s)))),
        spec_parse_expression(e, spec_pop(e, spec_pop(e, spec_pop(e, s)))).1 matches Ok(Some(_)),
        not_behind(
            spec_pop(e, spec_pop(e, spec_pop(e, s))),
            spec_parse_expression(e, spec_pop(e, spec_pop(e, spec_pop(e, s)))).0,
        ),
        spec_parse_code_block(
            e,
            spec_parse_expression(e, spec_pop(e, spec_pop(e, spec_pop(e, s)))).0,
        ).1 matches Ok(Some(_)),
    ensures
        ({
            let s3 = spec_pop(e, spec_pop(e, spec_pop(e, s)));
            let (s4, provider) = spec_parse_expression(e, s3);
            let (s5, body) = spec_parse_code_block(e, s4);
            spec_parse_for_expression(e, s) == (
                s5,
                Ok::<Option<ExprModel>, crate::parser::ParserError>(
                    Some(
                        ExprModel::For {
                            variable,
                            provider: Box::new(provider->Ok_0->Some_0),
                            body: body->Ok_0->Some_0,
                        },
                    ),
                ),
            )
        }),
{
    reveal(spec_keyword);
    reveal(spec_identifier);
    reveal(spec_expect_keyword);
}

/// A declaration `let name: type = value` binds the identifier after
/// `let`, the type parsed after `:` and the control-flow expression parsed
/// after `=`.
pub proof fn law_declaration_parts(e: ParseEnv, s: ParseState, name: String)
    requires
        spec_curr(e, s).token_type == TokenType::Keyword(Kw::Let),
        spec_curr(e, spec_pop(e, s)).token_type == TokenType::Identifier(name),
        spec_curr(e, spec_pop(e, spec_pop(e, s))).token_type == TokenType::Operator(Op::Colon),
        spec_parse_type(e, spec_pop(e, spec_pop(e, spec_pop(e, s)))).1 matches Ok(Some(_)),
        spec_curr(e, spec_parse_type(e, spec_pop(e, spec_pop(e, spec_pop(e, s)))).0).token_type
            == TokenType::Operator(Op::Equal),
        not_behind(
            spec_pop(e, s),
            spec_pop(e, spec_parse_type(e, spec_pop(e, spec_pop(e, spec_pop(e, s)))).0),
        ),
        spec_parse_control_flow_expression(
            e,
            spec_pop(e, spec_parse_type(e, spec_pop(e, spec_pop(e, spec_pop(e, s)))).0),
        ).1 matches Ok(Some(_)),
    ensures
        ({
            let (s4, t) = spec_parse_type(e, spec_pop(e, spec_pop(e, spec_pop(e, s))));
            let (s6, v) = spec_parse_control_flow_expression(e, spec_pop(e, s4));
            spec_parse_variable_declaration(e, s) == (
                s6,
                Ok::<Option<ExprModel>, crate::parser::ParserError>(
                    Some(
                        ExprModel::Declaration {
                            identifier: name,
                            data_type: t->Ok_0->Some_0,
                            expression: Box::new(v->Ok_0->Some_0),
                        },
                    ),
                ),
            )
        }),
{
    reveal(spec_keyword);
    reveal(spec_identifier);
    reveal(spec_expect_operator);
    reveal(spec_operator);
}

/// `return` carries the control-flow expression that follows it, if any.
pub proof fn law_return_value(e: ParseEnv, s: ParseState)
    requires
        spec_curr(e, s).token_type == TokenType::Keyword(Kw::Return),
        !(spec_parse_control_flow_expression(e, spec_pop(e, s)).1 is Err),
    ensures
        ({
            let (s2, v) = spec_parse_control_flow_expression(e, spec_pop(e, s));
            spec_parse_return(e, s) == (
                s2,
                Ok::<Option<ExprModel>, crate::parser::ParserError>(
                    Some(
                        ExprModel::Return(
                            match v {
                                Ok(Some(x)) => Some(Box::new(x)),
                                _ => None,
                            },
                        ),
                    ),
                ),
            )
        }),
{
    reveal(spec_keyword);
}

/// `-` and `!` in front of an operand negate it algebraically and
/// logically; without either, the expression is the list access
/// expression found there.
pub proof fn law_unary_parts(e: ParseEnv, s: ParseState)
    ensures
        ({
            let (s2, r) = spec_parse_unary_operator_expression(e, spec_pop(e, s));
            r matches Ok(Some(x)) ==> {
                &&& spec_curr(e, s).token_type == TokenType::Operator(Op::Minus)
                    ==> spec_parse_unary_operator_expression(e, s) == (
                    s2,
                    Ok::<Option<ExprModel>, crate::parser::ParserError>(
                        Some(
                            ExprModel::Unary {
                                operator: UnaryOperator::AlgebraicNegation,
                                expression: Box::new(x),
                            },
                        ),
                    ),
                )
                &&& spec_curr(e, s).token_type == TokenType::Operator(Op::ExclamationMark)
                    ==> spec_parse_unary_operator_expression(e, s) == (
                    s2,
                    Ok::<Option<ExprModel>, crate::parser::ParserError>(
                        Some(
                            ExprModel::Unary {
                                operator: UnaryOperator::LogicalNegation,
                                expression: Box::new(x),
                            },
                        ),
                    ),
                )
            }
        }),
        spec_curr(e, s).token_type != TokenType::Operator(Op::Minus) && spec_curr(e, s).token_type
            != TokenType::Operator(Op::ExclamationMark) ==> spec_parse_unary_operator_expression(e, s)
            == spec_parse_list_access_expression(e, s),
{
    reveal(super::expressions::unary::spec_parse_unary_operators);
}

/// A code block `{ statements }` gives exactly the statements parsed after
/// `{`; without `{` there is no code block. A statement is a `;` or the
/// expression found there.
pub proof fn law_code_block_parts(e: ParseEnv, s: ParseState)
    ensures
        ({
            let (s2, r) = spec_parse_statements(e, spec_pop(e, s));
            r matches Ok(st) ==> (spec_curr(e, s).token_type == TokenType::Operator(
                Op::OpenCurlyBracket,
            ) && spec_curr(e, s2).token_type == TokenType::Operator(Op::CloseCurlyBracket)
                ==> spec_parse_code_block(e, s) == (
                spec_pop(e, s2),
                Ok::<Option<Seq<StatementModel>>, crate::parser::ParserError>(Some(st)),
            ))
        }),
        spec_curr(e, s).token_type != TokenType::Operator(Op::OpenCurlyBracket)
            ==> spec_parse_code_block(e, s) == (
            s,
            Ok::<Option<Seq<StatementModel>>, crate::parser::ParserError>(None),
        ),
        spec_curr(e, s).token_type == TokenType::Operator(Op::Semicolon) ==> spec_parse_statement(
            e,
            s,
        ) == (
            spec_pop(e, s),
            Ok::<Option<StatementModel>, crate::parser::ParserError>(Some(StatementModel::Semicolon)),
        ),
        ({
            let (s2, r) = spec_parse_expression(e, s);
            r matches Ok(Some(x)) ==> (spec_curr(e, s).token_type != TokenType::Operator(
                Op::Semicolon,
            ) ==> spec_parse_statement(e, s) == (
                s2,
                Ok::<Option<StatementModel>, crate::parser::ParserError>(
                    Some(StatementModel::Expression(x)),
                ),
            ))
        }),
{
    reveal(spec_operator);
    reveal(spec_expect_operator);
}

/// Brackets group: `( expression )` is the expression inside, `[ items ]`
/// the list of the expressions inside, and the arguments of a call are the
/// expressions inside its round brackets.
pub proof fn law_bracket_and_list_parts(e: ParseEnv, s: ParseState)
    ensures
        ({
            let (s2, r) = spec_parse_expression(e, spec_pop(e, s));
            r matches Ok(Some(x)) ==> (spec_curr(e, s).token_type == TokenType::Operator(
                Op::OpenRoundBracket,
            ) && spec_curr(e, s2).token_type == TokenType::Operator(Op::CloseRoundBracket)
                ==> spec_parse_bracket_expression(e, s) == (
                spec_pop(e, s2),
                Ok::<Option<ExprModel>, crate::parser::ParserError>(Some(x)),
            ))
        }),
        ({
            let (s2, r) = spec_parse_expression_list(e, spec_pop(e, s));
            r matches Ok(items) ==> {
                &&& spec_curr(e, s).token_type == TokenType::Operator(Op::OpenSquareBracket)
                    && spec_curr(e, s2).token_type == TokenType::Operator(Op::CloseSquareBracket)
                    ==> spec_parse_list_expression(e, s) == (
                    spec_pop(e, s2),
                    Ok::<Option<ExprModel>, crate::parser::ParserError>(
                        Some(ExprModel::List(items)),
                    ),
                )
                &&& spec_curr(e, s).token_type == TokenType::Operator(Op::OpenRoundBracket)
                    && spec_curr(e, s2).token_type == TokenType::Operator(Op::CloseRoundBracket)
                    ==> spec_parse_function_call(e, s) == (
                    spec_pop(e, s2),
                    Ok::<Option<Seq<ExprModel>>, crate::parser::ParserError>(Some(items)),
                )
            }
        }),
{
    reveal(spec_operator);
    reveal(spec_expect_operator);
}

/// Inside `[ ]`, one expression is an index, and two expressions around
/// `::` are the start and end of a range, in that order.
#[verifier::rlimit(40)]
pub proof fn law_index_or_range(e: ParseEnv, s: ParseState)
    ensures
        ({
            let (s1, l) = spec_parse_expression(e, s);
            let (s3, r) = spec_parse_expression(e, spec_pop(e, s1));
            l matches Ok(Some(a)) ==> {
                &&& spec_curr(e, s1).token_type != TokenType::Operator(Op::DoubleColon)
                    ==> spec_parse_index_or_range_access(e, s) == (
                    s1,
                    Ok::<AccessModel, crate::parser::ParserError>(AccessModel::Index(Box::new(a))),
                )
                &&& (spec_curr(e, s1).token_type == TokenType::Operator(Op::DoubleColon)
                    && not_behind(s, s1) && (r matches Ok(Some(_))))
                    ==> spec_parse_index_or_range_access(e, s) == (
                    s3,
                    Ok::<AccessModel, crate::parser::ParserError>(
                        AccessModel::Range(Box::new(a), Box::new(r->Ok_0->Some_0)),
                    ),
                )
            }
        }),
{
    reveal(spec_operator);
    let (s1, l) = spec_parse_expression(e, s);
    let (s3, r) = spec_parse_expression(e, spec_pop(e, s1));
    assert(spec_operator(e, s1, Op::DoubleColon) == if spec_curr(e, s1).token_type
        == TokenType::Operator(Op::DoubleColon) {
        (spec_pop(e, s1), true)
    } else {
        (s1, false)
    });
}

/// A function definition starts with `fn` and its name; its statements are
/// those of a code block that ends where the definition ends; it returns a
/// type parsed after `->`, or nothing where no `->` follows the parameters.
pub proof fn law_function_parts(e: ParseEnv, s: ParseState)
    ensures
        ({
            let (s8, r) = spec_parse_function_def(e, s);
            r matches Ok(Some(f)) ==> {
                &&& spec_curr(e, s).token_type == TokenType::Keyword(Kw::Fn)
                &&& spec_curr(e, spec_pop(e, s)).token_type == TokenType::Identifier(f.identifier)
                &&& exists|s7: ParseState|
                    #[trigger] spec_parse_code_block(e, s7) == (
                        s8,
                        Ok::<Option<Seq<StatementModel>>, crate::parser::ParserError>(
                            Some(f.statements),
                        ),
                    )
                &&& exists|s5: ParseState|
                    {
                        let (s6, arrow) = #[trigger] spec_operator(e, s5, Op::Arrow);
                        &&& arrow ==> spec_parse_type(e, s6).1 == Ok::<
                            Option<DataType>,
                            crate::parser::ParserError,
                        >(Some(f.data_type))
                        &&& !arrow ==> f.data_type == DataType::Nothing
                    }
            }
        }),
{
    reveal(super::function::spec_parse_function_def);
    reveal(spec_keyword);
    reveal(spec_identifier);
}

} // verus!
