#![allow(unused_imports)]

use interpreter::parser::grammar::expressions::assignment::AssignmentExpr;
use interpreter::parser::grammar::expressions::binary::{BinaryExpr, BinaryOperator};
use interpreter::parser::grammar::expressions::code_block::{parse_code_block_expression, CodeBlockExpr};
use interpreter::parser::grammar::expressions::declaration::DeclarationExpr;
use interpreter::parser::grammar::expressions::for_expr::{parse_for_expression, ForExpr};
use interpreter::parser::grammar::expressions::function_call::FunctionCallExpr;
use interpreter::parser::grammar::expressions::identifier::IdentifierExpr;
use interpreter::parser::grammar::expressions::if_else::{parse_if_else_expression, IfElseExpr};
use interpreter::parser::grammar::expressions::list::{parse_list_expression, ListExpr};
use interpreter::parser::grammar::expressions::list_access::{IndexOrRange, ListAccessExpr};
use interpreter::parser::grammar::expressions::literal::{parse_literal_expression, LiteralExpr};
use interpreter::parser::grammar::expressions::return_expr::ReturnExpr;
use interpreter::parser::grammar::expressions::statement::Statement;
use interpreter::parser::grammar::expressions::unary::{UnaryExpr, UnaryOperator};
use interpreter::parser::grammar::expressions::while_expr::{parse_while_expression, WhileExpr};
use interpreter::parser::grammar::expressions::{parse_expression, Expression};
use interpreter::parser::grammar::function::{parse_function_def, FunctionDefinition, Parameter};
use interpreter::parser::grammar::program::{parse_program, Program};
use interpreter::parser::grammar::{DataType, Value};
use interpreter::parser::keywords::Keyword as Kw;
use interpreter::parser::operators::Operator as Op;
use interpreter::parser::position::Position;
use interpreter::parser::test_utils::{dummy_token, token, DummyScanner};
use interpreter::parser::token::{Token, TokenType};
use interpreter::parser::{
    Parser, ParserError, ParserErrorVariant, ParserWarning, ParserWarningVariant,
};

fn partial_parse<T>(
    tokens: Vec<Token>,
    parse_func: fn(&mut Parser) -> Result<Option<T>, ParserError>,
) -> (Result<Option<T>, ParserError>, Vec<ParserWarning>) {
    let mut parser = Parser::new_with_defaults(DummyScanner::new(tokens));
    let result = parse_func(&mut parser);
    (result, parser.get_warnings())
}

fn parse_helper(
    t_operator: TokenType,
    t_literal: TokenType,
    operator: UnaryOperator,
    value: Value,
) {
    let (result, warnings) = partial_parse(
        vec![
            dummy_token(t_operator.clone()),
            dummy_token(t_operator),
            dummy_token(t_literal),
            dummy_token(TokenType::Operator(Op::Semicolon)),
        ],
        parse_expression,
    );
    assert_eq!(
        result.unwrap().unwrap(),
        UnaryExpr::new(operator, UnaryExpr::new(operator, value.into()).into()).into()
    );

    assert!(warnings.is_empty());
}

#[test]
fn parse_algebraic_negation() {
    parse_helper(
        TokenType::Operator(Op::Minus),
        TokenType::Float((5.37_f64).to_bits()),
        UnaryOperator::AlgebraicNegation,
        Value::Float((5.37_f64).to_bits()),
    )
}

#[test]
fn parse_logical_negation() {
    parse_helper(
        TokenType::Operator(Op::ExclamationMark),
        TokenType::Keyword(Kw::True),
        UnaryOperator::LogicalNegation,
        Value::Bool(true),
    )
}

#[test]
fn unary_parse_missing_expression() {
    let (result, warnings) = partial_parse(
        vec![
            token(TokenType::Operator(Op::ExclamationMark), (5, 7), (5, 8)),
            dummy_token(TokenType::Operator(Op::Semicolon)),
        ],
        parse_expression,
    );
    assert_eq!(
        result.unwrap_err(),
        ParserError {
            error: ParserErrorVariant::UnaryOperatorMissingExpression,
            pos: Position::new(5, 8),
        }
    );

    assert!(warnings.is_empty());
}

fn expr(operator: UnaryOperator, value: Value) -> UnaryExpr {
    UnaryExpr::new(operator, value.into())
}
