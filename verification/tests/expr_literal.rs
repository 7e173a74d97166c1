#![allow(unused_imports)]

use interpreter::parser::grammar::expressions::assignment::AssignmentExpr;
use interpreter::parser::grammar::expressions::binary::{BinaryExpr, BinaryOperator};
use interpreter::parser::grammar::expressions::code_block::{parse_code_block_expression, CodeBlockExpr};
use interpreter::parser::grammar::expressions::declaration::DeclarationExpr;
use interpreter::parser::grammar::expressions::for_expr::{parse_for_expression, ForExpr};
use interpreter::parser::grammar::expressions::function_call::FunctionCallExpr;
use interpreter::parser::grammar::expressions::identifier::IdentifierExpr;
use interpreter::parser::grammar::expressions::if_else::{parse_if_else_expression, IfElseExpr};
use interpreter::parser::grammar::expressions::list::{parse_list_expression, ListExpr};
use interpreter::parser::grammar::expressions::list_access::{IndexOrRange, ListAccessExpr};
use interpreter::parser::grammar::expressions::literal::{parse_literal_expression, LiteralExpr};
use interpreter::parser::grammar::expressions::return_expr::ReturnExpr;
use interpreter::parser::grammar::expressions::statement::Statement;
use interpreter::parser::grammar::expressions::unary::{UnaryExpr, UnaryOperator};
use interpreter::parser::grammar::expressions::while_expr::{parse_while_expression, WhileExpr};
use interpreter::parser::grammar::expressions::{parse_expression, Expression};
use interpreter::parser::grammar::function::{parse_function_def, FunctionDefinition, Parameter};
use interpreter::parser::grammar::program::{parse_program, Program};
use interpreter::parser::grammar::{DataType, Value};
use interpreter::parser::keywords::Keyword as Kw;
use interpreter::parser::operators::Operator as Op;
use interpreter::parser::position::Position;
use interpreter::parser::test_utils::{dummy_token, token, DummyScanner};
use interpreter::parser::token::{Token, TokenType};
use interpreter::parser::{
    Parser, ParserError, ParserErrorVariant, ParserWarning, ParserWarningVariant,
};

fn partial_parse<T>(
    tokens: Vec<Token>,
    parse_func: fn(&mut Parser) -> Result<Option<T>, ParserError>,
) -> (Result<Option<T>, ParserError>, Vec<ParserWarning>) {
    let mut parser = Parser::new_with_defaults(DummyScanner::new(tokens));
    let result = parse_func(&mut parser);
    (result, parser.get_warnings())
}

#[test]
fn literal_parse_miss() {
    let (result, warnings) = partial_parse(
        vec![dummy_token(TokenType::Keyword(Kw::Let))],
        parse_literal_expression,
    );
    assert_eq!(result, Ok(None));

    assert!(warnings.is_empty());
}

#[test]
fn parse_int() {
    let (result, warnings) = partial_parse(
        vec![
            dummy_token(TokenType::Int(5)),
            dummy_token(TokenType::Operator(Op::Semicolon)),
        ],
        parse_expression,
    );
    assert_eq!(result.unwrap().unwrap(), LiteralExpr(Value::Int(5)).into());

    assert!(warnings.is_empty());
}

#[test]
fn parse_float() {
    let (result, warnings) = partial_parse(
        vec![
            dummy_token(TokenType::Float((5.0_f64).to_bits())),
            dummy_token(TokenType::Operator(Op::Semicolon)),
        ],
        parse_expression,
    );
    assert_eq!(
        result.unwrap().unwrap(),
        LiteralExpr(Value::Float((5.0_f64).to_bits())).into()
    );

    assert!(warnings.is_empty());
}

#[test]
fn parse_string() {
    let (result, warnings) = partial_parse(
        vec![
            dummy_token(TokenType::String("ada".to_owned())),
            dummy_token(TokenType::Operator(Op::Semicolon)),
        ],
        parse_expression,
    );
    assert_eq!(
        result.unwrap().unwrap(),
        LiteralExpr(Value::String("ada".to_owned())).into()
    );

    assert!(warnings.is_empty());
}

#[test]
fn parse_bool_true() {
    let (result, warnings) = partial_parse(
        vec![
            dummy_token(TokenType::Keyword(Kw::True)),
            dummy_token(TokenType::Operator(Op::Semicolon)),
        ],
        parse_expression,
    );
    assert_eq!(
        result.unwrap().unwrap(),
        LiteralExpr(Value::Bool(true)).into()
    );

    assert!(warnings.is_empty());
}

#[test]
fn parse_bool_flase() {
    let (result, warnings) = partial_parse(
        vec![
            dummy_token(TokenType::Keyword(Kw::False)),
            dummy_token(TokenType::Operator(Op::Semicolon)),
        ],
        parse_expression,
    );
    assert_eq!(
        result.unwrap().unwrap(),
        LiteralExpr(Value::Bool(false)).into()
    );

    assert!(warnings.is_empty());
}

#[test]
fn literal_parse_out_of_tokens() {
    let (result, warnings) = partial_parse(vec![], parse_expression);
    assert_eq!(result.unwrap(), None);

    assert!(warnings.is_empty());
}
