use interpreter::interpreter::ExecutionErrorVariant;
use interpreter::parser::grammar::expressions::unary::{unary_op, UnaryOperator};
use interpreter::parser::grammar::Value;

#[test]
fn unary_eval_ok() {
    assert_eq!(
        unary_op(UnaryOperator::AlgebraicNegation, Value::Int(8)).unwrap(),
        Value::Int(-8)
    );
    assert_eq!(
        unary_op(UnaryOperator::AlgebraicNegation, Value::Float(8.0_f64.to_bits())).unwrap(),
        Value::Float((-8.0_f64).to_bits())
    );
    assert_eq!(
        unary_op(UnaryOperator::LogicalNegation, Value::Bool(true)).unwrap(),
        Value::Bool(false)
    );
}

#[test]
fn unary_eval_fail() {
    assert_eq!(
        unary_op(UnaryOperator::LogicalNegation, Value::Int(8))
            .unwrap_err()
            .variant,
        ExecutionErrorVariant::UnsupportedUnaryOperation
    );
    assert_eq!(
        unary_op(UnaryOperator::AlgebraicNegation, Value::Bool(true))
            .unwrap_err()
            .variant,
        ExecutionErrorVariant::UnsupportedUnaryOperation
    );
}

#[test]
fn float_negation_matches_ieee() {
    for x in [0.0_f64, -0.0, 1.5, -2.25, f64::INFINITY, f64::MIN_POSITIVE] {
        assert_eq!(
            unary_op(UnaryOperator::AlgebraicNegation, Value::Float(x.to_bits())).unwrap(),
            Value::Float((-x).to_bits())
        );
    }
}

#[test]
fn largest_integer_negates() {
    assert_eq!(
        unary_op(UnaryOperator::AlgebraicNegation, Value::Int(i64::MAX)).unwrap(),
        Value::Int(-i64::MAX)
    );
    assert_eq!(
        unary_op(UnaryOperator::LogicalNegation, Value::Nothing)
            .unwrap_err()
            .variant,
        ExecutionErrorVariant::UnsupportedUnaryOperation
    );
}
