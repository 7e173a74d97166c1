use interpreter::interpreter::ExecutionErrorVariant;
use interpreter::parser::grammar::expressions::binary::{bool_op, int_op, string_op, BinaryOperator};
use interpreter::parser::grammar::Value;

#[test]
fn eval_int_arithmetic_ok() {
    assert_eq!(
        int_op(4, 4, BinaryOperator::Addition)
            .unwrap(),
        Value::Int(8)
    );
    assert_eq!(
        int_op(12, 4, BinaryOperator::Subtraction)
            .unwrap(),
        Value::Int(8)
    );
    assert_eq!(
        int_op(2, 4, BinaryOperator::Multiplication)
            .unwrap(),
        Value::Int(8)
    );
    assert_eq!(
        int_op(32, 4, BinaryOperator::Division)
            .unwrap(),
        Value::Int(8)
    );
    assert_eq!(
        int_op(17, 9, BinaryOperator::Modulo)
            .unwrap(),
        Value::Int(8)
    );
}

#[test]
fn eval_int_arithmetic_fail() {
    assert_eq!(
        int_op(8, 0, BinaryOperator::Division)
            .unwrap_err()
            .variant,
        ExecutionErrorVariant::DivisionByZero
    );
    assert_eq!(
        int_op(8, 0, BinaryOperator::Modulo)
            .unwrap_err()
            .variant,
        ExecutionErrorVariant::DivisionByZero
    );
    assert_eq!(
        int_op(i64::MAX, 1, BinaryOperator::Addition)
        .unwrap_err()
        .variant,
        ExecutionErrorVariant::Overflow
    );
    assert_eq!(
        int_op(i64::MAX, -1, BinaryOperator::Subtraction)
        .unwrap_err()
        .variant,
        ExecutionErrorVariant::Overflow
    );
    assert_eq!(
        int_op(i64::MAX, 2, BinaryOperator::Multiplication)
        .unwrap_err()
        .variant,
        ExecutionErrorVariant::Overflow
    );
}

#[test]
fn eval_int_comparison_ok() {
    assert_eq!(
        int_op(4, 4, BinaryOperator::Equal)
            .unwrap(),
        Value::Bool(true)
    );
    assert_eq!(
        int_op(8, 4, BinaryOperator::Equal)
            .unwrap(),
        Value::Bool(false)
    );
    assert_eq!(
        int_op(8, 4, BinaryOperator::Unequal)
            .unwrap(),
        Value::Bool(true)
    );
    assert_eq!(
        int_op(4, 4, BinaryOperator::Unequal)
            .unwrap(),
        Value::Bool(false)
    );
    assert_eq!(
        int_op(8, 4, BinaryOperator::Lesser)
            .unwrap(),
        Value::Bool(false)
    );
    assert_eq!(
        int_op(4, 4, BinaryOperator::Lesser)
            .unwrap(),
        Value::Bool(false)
    );
    assert_eq!(
        int_op(4, 8, BinaryOperator::Lesser)
            .unwrap(),
        Value::Bool(true)
    );
    assert_eq!(
        int_op(8, 4, BinaryOperator::LesserEqual)
            .unwrap(),
        Value::Bool(false)
    );
    assert_eq!(
        int_op(4, 4, BinaryOperator::LesserEqual)
            .unwrap(),
        Value::Bool(true)
    );
    assert_eq!(
        int_op(4, 8, BinaryOperator::LesserEqual)
            .unwrap(),
        Value::Bool(true)
    );
    assert_eq!(
        int_op(4, 8, BinaryOperator::Greater)
            .unwrap(),
        Value::Bool(false)
    );
    assert_eq!(
        int_op(4, 4, BinaryOperator::Greater)
            .unwrap(),
        Value::Bool(false)
    );
    assert_eq!(
        int_op(8, 4, BinaryOperator::Greater)
            .unwrap(),
        Value::Bool(true)
    );
    assert_eq!(
        int_op(4, 8, BinaryOperator::GreaterEqual)
            .unwrap(),
        Value::Bool(false)
    );
    assert_eq!(
        int_op(4, 4, BinaryOperator::GreaterEqual)
            .unwrap(),
        Value::Bool(true)
    );
    assert_eq!(
        int_op(8, 4, BinaryOperator::GreaterEqual)
            .unwrap(),
        Value::Bool(true)
    );
}

#[test]
fn eval_bool_ok() {
    assert_eq!(
        bool_op(true, true, BinaryOperator::Equal)
            .unwrap(),
        Value::Bool(true)
    );
    assert_eq!(
        bool_op(true, true, BinaryOperator::Unequal)
        .unwrap(),
        Value::Bool(false)
    );
    assert_eq!(
        bool_op(true, true, BinaryOperator::And)
            .unwrap(),
        Value::Bool(true)
    );
    assert_eq!(
        bool_op(true, false, BinaryOperator::And)
            .unwrap(),
        Value::Bool(false)
    );
    assert_eq!(
        bool_op(false, true, BinaryOperator::Or)
            .unwrap(),
        Value::Bool(true)
    );
    assert_eq!(
        bool_op(false, false, BinaryOperator::Or)
            .unwrap(),
        Value::Bool(false)
    );
}

#[test]
fn eval_string_ok() {
    assert_eq!(
        string_op("abc".to_owned(), "abc".to_owned(), BinaryOperator::Equal)
        .unwrap(),
        Value::Bool(true)
    );
    assert_eq!(
        string_op("abc".to_owned(), "abc".to_owned(), BinaryOperator::Unequal)
        .unwrap(),
        Value::Bool(false)
    );
    assert_eq!(
        string_op("abc".to_owned(), "abc".to_owned(), BinaryOperator::Addition)
        .unwrap(),
        Value::String("abcabc".to_owned())
    );
}

#[test]
fn division_rounds_toward_zero() {
    assert_eq!(int_op(7, -2, BinaryOperator::Division).unwrap(), Value::Int(-3));
    assert_eq!(int_op(-7, 2, BinaryOperator::Division).unwrap(), Value::Int(-3));
    assert_eq!(int_op(-7, -2, BinaryOperator::Division).unwrap(), Value::Int(3));
}

#[test]
fn remainder_takes_sign_of_dividend() {
    assert_eq!(int_op(-7, 2, BinaryOperator::Modulo).unwrap(), Value::Int(-1));
    assert_eq!(int_op(7, -2, BinaryOperator::Modulo).unwrap(), Value::Int(1));
}

#[test]
fn min_by_minus_one_overflows() {
    assert_eq!(
        int_op(i64::MIN, -1, BinaryOperator::Division).unwrap_err().variant,
        ExecutionErrorVariant::Overflow
    );
    assert_eq!(
        int_op(i64::MIN, -1, BinaryOperator::Modulo).unwrap_err().variant,
        ExecutionErrorVariant::Overflow
    );
}

#[test]
fn logical_operators_on_integers_unsupported() {
    assert_eq!(
        int_op(0, 0, BinaryOperator::And).unwrap_err().variant,
        ExecutionErrorVariant::UnsupportedBinaryOperation
    );
    assert_eq!(
        int_op(1, 0, BinaryOperator::Or).unwrap_err().variant,
        ExecutionErrorVariant::UnsupportedBinaryOperation
    );
}

#[test]
fn arithmetic_on_booleans_unsupported() {
    assert_eq!(
        bool_op(true, true, BinaryOperator::Addition).unwrap_err().variant,
        ExecutionErrorVariant::UnsupportedBinaryOperation
    );
}

#[test]
fn string_subtraction_unsupported() {
    assert_eq!(
        string_op("abc".to_owned(), "abc".to_owned(), BinaryOperator::Subtraction)
            .unwrap_err()
            .variant,
        ExecutionErrorVariant::UnsupportedBinaryOperation
    );
    assert_eq!(
        string_op("ab".to_owned(), "cd".to_owned(), BinaryOperator::Addition).unwrap(),
        Value::String("abcd".to_owned())
    );
}
