#![allow(unused_imports)]

use interpreter::parser::grammar::expressions::assignment::AssignmentExpr;
use interpreter::parser::grammar::expressions::binary::{BinaryExpr, BinaryOperator};
use interpreter::parser::grammar::expressions::code_block::{parse_code_block_expression, CodeBlockExpr};
use interpreter::parser::grammar::expressions::declaration::DeclarationExpr;
use interpreter::parser::grammar::expressions::for_expr::{parse_for_expression, ForExpr};
use interpreter::parser::grammar::expressions::function_call::FunctionCallExpr;
use interpreter::parser::grammar::expressions::identifier::IdentifierExpr;
use interpreter::parser::grammar::expressions::if_else::{parse_if_else_expression, IfElseExpr};
use interpreter::parser::grammar::expressions::list::{parse_list_expression, ListExpr};
use interpreter::parser::grammar::expressions::list_access::{IndexOrRange, ListAccessExpr};
use interpreter::parser::grammar::expressions::literal::{parse_literal_expression, LiteralExpr};
use interpreter::parser::grammar::expressions::return_expr::ReturnExpr;
use interpreter::parser::grammar::expressions::statement::Statement;
use interpreter::parser::grammar::expressions::unary::{UnaryExpr, UnaryOperator};
use interpreter::parser::grammar::expressions::while_expr::{parse_while_expression, WhileExpr};
use interpreter::parser::grammar::expressions::{parse_expression, Expression};
use interpreter::parser::grammar::function::{parse_function_def, FunctionDefinition, Parameter};
use interpreter::parser::grammar::program::{parse_program, Program};
use interpreter::parser::grammar::{DataType, Value};
use interpreter::parser::keywords::Keyword as Kw;
use interpreter::parser::operators::Operator as Op;
use interpreter::parser::position::Position;
use interpreter::parser::test_utils::{dummy_token, token, DummyScanner};
use interpreter::parser::token::{Token, TokenType};
use interpreter::parser::{
    Parser, ParserError, ParserErrorVariant, ParserWarning, ParserWarningVariant,
};

fn partial_parse<T>(
    tokens: Vec<Token>,
    parse_func: fn(&mut Parser) -> Result<Option<T>, ParserError>,
) -> (Result<Option<T>, ParserError>, Vec<ParserWarning>) {
    let mut parser = Parser::new_with_defaults(DummyScanner::new(tokens));
    let result = parse_func(&mut parser);
    (result, parser.get_warnings())
}

#[test]
fn function_miss() {
    let (result, warnings) = partial_parse(
        vec![dummy_token(TokenType::Keyword(Kw::Let))],
        parse_function_def,
    );
    assert_eq!(result, Ok(None));

    assert!(warnings.is_empty());
}

#[test]
fn function_ok() {
    let (result, warnings) = partial_parse(
        vec![
            dummy_token(TokenType::Keyword(Kw::Fn)),
            dummy_token(TokenType::Identifier("a".to_owned())),
            dummy_token(TokenType::Operator(Op::OpenRoundBracket)),
            dummy_token(TokenType::Identifier("b".to_owned())),
            dummy_token(TokenType::Operator(Op::Colon)),
            dummy_token(TokenType::Keyword(Kw::Int)),
            dummy_token(TokenType::Operator(Op::Split)),
            dummy_token(TokenType::Identifier("c".to_owned())),
            dummy_token(TokenType::Operator(Op::Colon)),
            dummy_token(TokenType::Keyword(Kw::Int)),
            dummy_token(TokenType::Operator(Op::CloseRoundBracket)),
            dummy_token(TokenType::Operator(Op::Arrow)),
            dummy_token(TokenType::Keyword(Kw::Int)),
            dummy_token(TokenType::Operator(Op::OpenCurlyBracket)),
            dummy_token(TokenType::Identifier("d".to_owned())),
            dummy_token(TokenType::Operator(Op::OpenRoundBracket)),
            dummy_token(TokenType::Operator(Op::CloseRoundBracket)),
            dummy_token(TokenType::Operator(Op::Semicolon)),
            dummy_token(TokenType::Operator(Op::CloseCurlyBracket)),
        ],
        parse_function_def,
    );
    assert_eq!(
        result.unwrap().unwrap(),
        FunctionDefinition {
            identifier: "a".to_owned(),
            params: vec![
                Parameter {
                    name: "b".to_owned(),
                    data_type: DataType::Integer
                },
                Parameter {
                    name: "c".to_owned(),
                    data_type: DataType::Integer
                }
            ],
            statements: vec![
                FunctionCallExpr::new(IdentifierExpr::new("d".to_owned()).into(), vec![])
                    .into(),
                Statement::Semicolon
            ],
            data_type: DataType::Integer
        }
    );

    assert!(warnings.is_empty());
}

#[test]
fn duplicate_parameters() {
    let (result, warnings) = partial_parse(
        vec![
            dummy_token(TokenType::Keyword(Kw::Fn)),
            dummy_token(TokenType::Identifier("a".to_owned())),
            dummy_token(TokenType::Operator(Op::OpenRoundBracket)),
            dummy_token(TokenType::Identifier("b".to_owned())),
            dummy_token(TokenType::Operator(Op::Colon)),
            dummy_token(TokenType::Keyword(Kw::Int)),
            dummy_token(TokenType::Operator(Op::Split)),
            dummy_token(TokenType::Identifier("b".to_owned())),
            dummy_token(TokenType::Operator(Op::Colon)),
            token(TokenType::Keyword(Kw::Int), (10, 5), (10, 6)),
            dummy_token(TokenType::Operator(Op::CloseRoundBracket)),
            dummy_token(TokenType::Operator(Op::Arrow)),
            dummy_token(TokenType::Keyword(Kw::Int)),
            dummy_token(TokenType::Operator(Op::OpenCurlyBracket)),
            dummy_token(TokenType::Identifier("d".to_owned())),
            dummy_token(TokenType::Operator(Op::OpenRoundBracket)),
            dummy_token(TokenType::Operator(Op::CloseRoundBracket)),
            dummy_token(TokenType::Operator(Op::Semicolon)),
            dummy_token(TokenType::Operator(Op::CloseCurlyBracket)),
        ],
        parse_function_def,
    );
    assert_eq!(
        result.unwrap_err(),
        ParserError {
            error: ParserErrorVariant::DuplicateParameter,
            pos: Position::new(10, 6),
        }
    );

    assert!(warnings.is_empty());
}

#[test]
fn no_parameters() {
    let (result, warnings) = partial_parse(
        vec![
            dummy_token(TokenType::Keyword(Kw::Fn)),
            dummy_token(TokenType::Identifier("a".to_owned())),
            dummy_token(TokenType::Operator(Op::OpenRoundBracket)),
            dummy_token(TokenType::Operator(Op::CloseRoundBracket)),
            dummy_token(TokenType::Operator(Op::Arrow)),
            dummy_token(TokenType::Keyword(Kw::Int)),
            dummy_token(TokenType::Operator(Op::OpenCurlyBracket)),
            dummy_token(TokenType::Identifier("c".to_owned())),
            dummy_token(TokenType::Operator(Op::OpenRoundBracket)),
            dummy_token(TokenType::Operator(Op::CloseRoundBracket)),
            dummy_token(TokenType::Operator(Op::Semicolon)),
            dummy_token(TokenType::Operator(Op::CloseCurlyBracket)),
        ],
        parse_function_def,
    );
    assert_eq!(
        result.unwrap().unwrap(),
        FunctionDefinition {
            identifier: "a".to_owned(),
            params: vec![],
            statements: vec![
                FunctionCallExpr::new(IdentifierExpr::new("c".to_owned()).into(), vec![])
                    .into(),
                Statement::Semicolon
            ],
            data_type: DataType::Integer
        }
    );

    assert!(warnings.is_empty());
}

#[test]
fn no_return_type() {
    let (result, warnings) = partial_parse(
        vec![
            dummy_token(TokenType::Keyword(Kw::Fn)),
            dummy_token(TokenType::Identifier("a".to_owned())),
            dummy_token(TokenType::Operator(Op::OpenRoundBracket)),
            dummy_token(TokenType::Identifier("b".to_owned())),
            dummy_token(TokenType::Operator(Op::Colon)),
            dummy_token(TokenType::Keyword(Kw::Int)),
            dummy_token(TokenType::Operator(Op::CloseRoundBracket)),
            dummy_token(TokenType::Operator(Op::OpenCurlyBracket)),
            dummy_token(TokenType::Identifier("c".to_owned())),
            dummy_token(TokenType::Operator(Op::OpenRoundBracket)),
            dummy_token(TokenType::Operator(Op::CloseRoundBracket)),
            dummy_token(TokenType::Operator(Op::Semicolon)),
            dummy_token(TokenType::Operator(Op::CloseCurlyBracket)),
        ],
        parse_function_def,
    );
    assert_eq!(
        result.unwrap().unwrap(),
        FunctionDefinition {
            identifier: "a".to_owned(),
            params: vec![Parameter {
                name: "b".to_owned(),
                data_type: DataType::Integer
            }],
            statements: vec![
                FunctionCallExpr::new(IdentifierExpr::new("c".to_owned()).into(), vec![])
                    .into(),
                Statement::Semicolon
            ],
            data_type: DataType::Nothing
        }
    );

    assert!(warnings.is_empty());
}

#[test]
fn function_out_of_tokens() {
    let (result, warnings) = partial_parse(
        vec![token(TokenType::Keyword(Kw::Fn), (2, 4), (2, 6))],
        parse_function_def,
    );
    assert_eq!(
        result.unwrap_err(),
        ParserError {
            error: ParserErrorVariant::FunctionMissingIdentifier,
            pos: Position::new(2, 6),
        }
    );

    assert!(warnings.is_empty());
}

#[test]
fn missing_opening_bracket() {
    let (result, warnings) = partial_parse(
        vec![
            dummy_token(TokenType::Keyword(Kw::Fn)),
            dummy_token(TokenType::Identifier("a".to_owned())),
            token(TokenType::Identifier("b".to_owned()), (7, 8), (7, 9)),
            dummy_token(TokenType::Operator(Op::Colon)),
            dummy_token(TokenType::Keyword(Kw::Int)),
            dummy_token(TokenType::Operator(Op::CloseRoundBracket)),
            dummy_token(TokenType::Operator(Op::OpenCurlyBracket)),
            dummy_token(TokenType::Identifier("c".to_owned())),
            dummy_token(TokenType::Operator(Op::OpenRoundBracket)),
            dummy_token(TokenType::Operator(Op::CloseRoundBracket)),
            dummy_token(TokenType::Operator(Op::Semicolon)),
            dummy_token(TokenType::Operator(Op::CloseCurlyBracket)),
        ],
        parse_function_def,
    );
    assert_eq!(
        result.unwrap().unwrap(),
        FunctionDefinition {
            identifier: "a".to_owned(),
            params: vec![Parameter {
                name: "b".to_owned(),
                data_type: DataType::Integer
            }],
            statements: vec![
                FunctionCallExpr::new(IdentifierExpr::new("c".to_owned()).into(), vec![])
                    .into(),
                Statement::Semicolon
            ],
            data_type: DataType::Nothing
        }
    );

    assert_eq!(warnings.len(), 1);
    assert_eq!(
        warnings[0],
        ParserWarning {
            warning: ParserWarningVariant::MissingOpeningRoundBracket,
            start: Position::new(7, 8),
            stop: Position::new(7, 9)
        }
    );
}

#[test]
fn missing_closing_bracket() {
    let (result, warnings) = partial_parse(
        vec![
            dummy_token(TokenType::Keyword(Kw::Fn)),
            dummy_token(TokenType::Identifier("a".to_owned())),
            dummy_token(TokenType::Operator(Op::OpenRoundBracket)),
            dummy_token(TokenType::Identifier("b".to_owned())),
            dummy_token(TokenType::Operator(Op::Colon)),
            dummy_token(TokenType::Keyword(Kw::Int)),
            token(TokenType::Operator(Op::OpenCurlyBracket), (9, 3), (9, 4)),
            dummy_token(TokenType::Identifier("c".to_owned())),
            dummy_token(TokenType::Operator(Op::OpenRoundBracket)),
            dummy_token(TokenType::Operator(Op::CloseRoundBracket)),
            dummy_token(TokenType::Operator(Op::Semicolon)),
            dummy_token(TokenType::Operator(Op::CloseCurlyBracket)),
        ],
        parse_function_def,
    );
    assert_eq!(
        result.unwrap().unwrap(),
        FunctionDefinition {
            identifier: "a".to_owned(),
            params: vec![Parameter {
                name: "b".to_owned(),
                data_type: DataType::Integer
            }],
            statements: vec![
                FunctionCallExpr::new(IdentifierExpr::new("c".to_owned()).into(), vec![])
                    .into(),
                Statement::Semicolon
            ],
            data_type: DataType::Nothing
        }
    );

    assert_eq!(warnings.len(), 1);
    assert_eq!(
        warnings[0],
        ParserWarning {
            warning: ParserWarningVariant::MissingClosingRoundBracket,
            start: Position::new(9, 3),
            stop: Position::new(9, 4)
        }
    );
}

#[test]
fn missing_return_type() {
    let (result, warnings) = partial_parse(
        vec![
            dummy_token(TokenType::Keyword(Kw::Fn)),
            dummy_token(TokenType::Identifier("a".to_owned())),
            dummy_token(TokenType::Operator(Op::OpenRoundBracket)),
            dummy_token(TokenType::Identifier("b".to_owned())),
            dummy_token(TokenType::Operator(Op::Colon)),
            dummy_token(TokenType::Keyword(Kw::Int)),
            dummy_token(TokenType::Operator(Op::CloseRoundBracket)),
            token(TokenType::Operator(Op::Arrow), (3, 5), (3, 7)),
            dummy_token(TokenType::Operator(Op::OpenCurlyBracket)),
            dummy_token(TokenType::Identifier("c".to_owned())),
            dummy_token(TokenType::Operator(Op::OpenRoundBracket)),
            dummy_token(TokenType::Operator(Op::CloseRoundBracket)),
            dummy_token(TokenType::Operator(Op::Semicolon)),
            dummy_token(TokenType::Operator(Op::CloseCurlyBracket)),
        ],
        parse_function_def,
    );
    assert_eq!(
        result.unwrap_err(),
        ParserError {
            error: ParserErrorVariant::FunctionMissingReturnType,
            pos: Position::new(3, 7)
        }
    );

    assert!(warnings.is_empty());
}

#[test]
fn missing_body() {
    let (result, warnings) = partial_parse(
        vec![
            dummy_token(TokenType::Keyword(Kw::Fn)),
            dummy_token(TokenType::Identifier("a".to_owned())),
            dummy_token(TokenType::Operator(Op::OpenRoundBracket)),
            dummy_token(TokenType::Identifier("b".to_owned())),
            dummy_token(TokenType::Operator(Op::Colon)),
            dummy_token(TokenType::Keyword(Kw::Int)),
            dummy_token(TokenType::Operator(Op::CloseRoundBracket)),
            dummy_token(TokenType::Operator(Op::Arrow)),
            token(TokenType::Keyword(Kw::Int), (6, 5), (6, 8)),
            dummy_token(TokenType::Keyword(Kw::Fn)),
        ],
        parse_function_def,
    );
    assert_eq!(
        result.unwrap_err(),
        ParserError {
            error: ParserErrorVariant::FunctionMissingBody,
            pos: Position::new(6, 8)
        }
    );

    assert!(warnings.is_empty());
}

#[test]
fn missing_identifier() {
    let (result, warnings) = partial_parse(
        vec![
            token(TokenType::Keyword(Kw::Fn), (4, 5), (4, 7)),
            dummy_token(TokenType::Operator(Op::OpenRoundBracket)),
        ],
        parse_function_def,
    );
    assert_eq!(
        result.unwrap_err(),
        ParserError {
            error: ParserErrorVariant::FunctionMissingIdentifier,
            pos: Position::new(4, 7)
        }
    );

    assert!(warnings.is_empty());
}
