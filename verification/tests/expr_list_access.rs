#![allow(unused_imports)]

use interpreter::parser::grammar::expressions::assignment::AssignmentExpr;
use interpreter::parser::grammar::expressions::binary::{BinaryExpr, BinaryOperator};
use interpreter::parser::grammar::expressions::code_block::{parse_code_block_expression, CodeBlockExpr};
use interpreter::parser::grammar::expressions::declaration::DeclarationExpr;
use interpreter::parser::grammar::expressions::for_expr::{parse_for_expression, ForExpr};
use interpreter::parser::grammar::expressions::function_call::FunctionCallExpr;
use interpreter::parser::grammar::expressions::identifier::IdentifierExpr;
use interpreter::parser::grammar::expressions::if_else::{parse_if_else_expression, IfElseExpr};
use interpreter::parser::grammar::expressions::list::{parse_list_expression, ListExpr};
use interpreter::parser::grammar::expressions::list_access::{IndexOrRange, ListAccessExpr};
use interpreter::parser::grammar::expressions::literal::{parse_literal_expression, LiteralExpr};
use interpreter::parser::grammar::expressions::return_expr::ReturnExpr;
use interpreter::parser::grammar::expressions::statement::Statement;
use interpreter::parser::grammar::expressions::unary::{UnaryExpr, UnaryOperator};
use interpreter::parser::grammar::expressions::while_expr::{parse_while_expression, WhileExpr};
use interpreter::parser::grammar::expressions::{parse_expression, Expression};
use interpreter::parser::grammar::function::{parse_function_def, FunctionDefinition, Parameter};
use interpreter::parser::grammar::program::{parse_program, Program};
use interpreter::parser::grammar::{DataType, Value};
use interpreter::parser::keywords::Keyword as Kw;
use interpreter::parser::operators::Operator as Op;
use interpreter::parser::position::Position;
use interpreter::parser::test_utils::{dummy_token, token, DummyScanner};
use interpreter::parser::token::{Token, TokenType};
use interpreter::parser::{
    Parser, ParserError, ParserErrorVariant, ParserWarning, ParserWarningVariant,
};

fn partial_parse<T>(
    tokens: Vec<Token>,
    parse_func: fn(&mut Parser) -> Result<Option<T>, ParserError>,
) -> (Result<Option<T>, ParserError>, Vec<ParserWarning>) {
    let mut parser = Parser::new_with_defaults(DummyScanner::new(tokens));
    let result = parse_func(&mut parser);
    (result, parser.get_warnings())
}

#[test]
fn list_access_list_access_index() {
    let (result, warnings) = partial_parse(
        vec![
            dummy_token(TokenType::Identifier("a".to_owned())),
            dummy_token(TokenType::Operator(Op::OpenSquareBracket)),
            dummy_token(TokenType::Int(1)),
            dummy_token(TokenType::Operator(Op::CloseSquareBracket)),
            dummy_token(TokenType::Operator(Op::Semicolon)),
        ],
        parse_expression,
    );
    assert_eq!(
        result.unwrap().unwrap(),
        ListAccessExpr::new(
            IdentifierExpr::new("a".to_owned()).into(),
            IndexOrRange::index(Value::Int(1).into())
        )
        .into()
    );

    assert!(warnings.is_empty());
}

#[test]
fn list_access_list_access_empty() {
    let (result, warnings) = partial_parse(
        vec![
            dummy_token(TokenType::Identifier("a".to_owned())),
            token(TokenType::Operator(Op::OpenSquareBracket), (3, 4), (3, 5)),
            dummy_token(TokenType::Operator(Op::CloseSquareBracket)),
            dummy_token(TokenType::Operator(Op::Semicolon)),
        ],
        parse_expression,
    );
    assert_eq!(
        result.unwrap_err(),
        ParserError {
            error: ParserErrorVariant::ListAccessEmpty,
            pos: Position::new(3, 5),
        }
    );

    assert!(warnings.is_empty());
}

#[test]
fn list_access_list_access_range() {
    let (result, warnings) = partial_parse(
        vec![
            dummy_token(TokenType::Identifier("a".to_owned())),
            dummy_token(TokenType::Operator(Op::OpenSquareBracket)),
            dummy_token(TokenType::Int(1)),
            dummy_token(TokenType::Operator(Op::DoubleColon)),
            dummy_token(TokenType::Int(5)),
            dummy_token(TokenType::Operator(Op::CloseSquareBracket)),
            dummy_token(TokenType::Operator(Op::Semicolon)),
        ],
        parse_expression,
    );
    assert_eq!(
        result.unwrap().unwrap(),
        ListAccessExpr::new(
            IdentifierExpr::new("a".to_owned()).into(),
            IndexOrRange::range(Value::Int(1).into(), Value::Int(5).into())
        )
        .into()
    );

    assert!(warnings.is_empty());
}

#[test]
fn list_access_list_access_missing_closing_bracket() {
    let (result, warnings) = partial_parse(
        vec![
            dummy_token(TokenType::Identifier("a".to_owned())),
            dummy_token(TokenType::Operator(Op::OpenSquareBracket)),
            dummy_token(TokenType::Int(1)),
            dummy_token(TokenType::Operator(Op::DoubleColon)),
            dummy_token(TokenType::Int(5)),
            token(TokenType::Operator(Op::Semicolon), (7, 8), (7, 9)),
        ],
        parse_expression,
    );
    assert_eq!(
        result.unwrap().unwrap(),
        ListAccessExpr::new(
            IdentifierExpr::new("a".to_owned()).into(),
            IndexOrRange::range(Value::Int(1).into(), Value::Int(5).into())
        )
        .into()
    );

    assert_eq!(warnings.len(), 1);
    assert_eq!(
        warnings[0],
        ParserWarning {
            warning: ParserWarningVariant::MissingClosingSquareBracket,
            start: Position::new(7, 8),
            stop: Position::new(7, 9)
        }
    );
}

#[test]
fn list_access_list_access_range_incomplete() {
    let (result, warnings) = partial_parse(
        vec![
            dummy_token(TokenType::Identifier("a".to_owned())),
            dummy_token(TokenType::Operator(Op::OpenSquareBracket)),
            dummy_token(TokenType::Int(1)),
            token(TokenType::Operator(Op::DoubleColon), (3, 8), (3, 10)),
            dummy_token(TokenType::Operator(Op::CloseSquareBracket)),
            dummy_token(TokenType::Operator(Op::Semicolon)),
        ],
        parse_expression,
    );
    assert_eq!(
        result.unwrap_err(),
        ParserError {
            error: ParserErrorVariant::ListRangeAccessIncomplete,
            pos: Position::new(3, 10)
        }
    );

    assert!(warnings.is_empty());
}
