#![allow(unused_imports)]

use interpreter::parser::grammar::expressions::assignment::AssignmentExpr;
use interpreter::parser::grammar::expressions::binary::{BinaryExpr, BinaryOperator};
use interpreter::parser::grammar::expressions::code_block::{parse_code_block_expression, CodeBlockExpr};
use interpreter::parser::grammar::expressions::declaration::DeclarationExpr;
use interpreter::parser::grammar::expressions::for_expr::{parse_for_expression, ForExpr};
use interpreter::parser::grammar::expressions::function_call::FunctionCallExpr;
use interpreter::parser::grammar::expressions::identifier::IdentifierExpr;
use interpreter::parser::grammar::expressions::if_else::{parse_if_else_expression, IfElseExpr};
use interpreter::parser::grammar::expressions::list::{parse_list_expression, ListExpr};
use interpreter::parser::grammar::expressions::list_access::{IndexOrRange, ListAccessExpr};
use interpreter::parser::grammar::expressions::literal::{parse_literal_expression, LiteralExpr};
use interpreter::parser::grammar::expressions::return_expr::ReturnExpr;
use interpreter::parser::grammar::expressions::statement::Statement;
use interpreter::parser::grammar::expressions::unary::{UnaryExpr, UnaryOperator};
use interpreter::parser::grammar::expressions::while_expr::{parse_while_expression, WhileExpr};
use interpreter::parser::grammar::expressions::{parse_expression, Expression};
use interpreter::parser::grammar::function::{parse_function_def, FunctionDefinition, Parameter};
use interpreter::parser::grammar::program::{parse_program, Program};
use interpreter::parser::grammar::{DataType, Value};
use interpreter::parser::keywords::Keyword as Kw;
use interpreter::parser::operators::Operator as Op;
use interpreter::parser::position::Position;
use interpreter::parser::test_utils::{dummy_token, token, DummyScanner};
use interpreter::parser::token::{Token, TokenType};
use interpreter::parser::{
    Parser, ParserError, ParserErrorVariant, ParserWarning, ParserWarningVariant,
};

fn partial_parse<T>(
    tokens: Vec<Token>,
    parse_func: fn(&mut Parser) -> Result<Option<T>, ParserError>,
) -> (Result<Option<T>, ParserError>, Vec<ParserWarning>) {
    let mut parser = Parser::new_with_defaults(DummyScanner::new(tokens));
    let result = parse_func(&mut parser);
    (result, parser.get_warnings())
}

#[test]
fn miss_while_loop() {
    let (result, warnings) = partial_parse(
        vec![dummy_token(TokenType::Keyword(Kw::Let))],
        parse_while_expression,
    );
    assert_eq!(result, Ok(None));

    assert!(warnings.is_empty());
}

#[test]
fn while_expr_while_loop() {
    let (result, warnings) = partial_parse(
        vec![
            dummy_token(TokenType::Keyword(Kw::While)),
            dummy_token(TokenType::Keyword(Kw::True)),
            dummy_token(TokenType::Operator(Op::OpenCurlyBracket)),
            dummy_token(TokenType::Operator(Op::CloseCurlyBracket)),
        ],
        parse_expression,
    );
    assert_eq!(
        result.unwrap().unwrap(),
        WhileExpr::new(Value::Bool(true).into(), vec![]).into()
    );

    assert!(warnings.is_empty());
}

#[test]
fn while_loop_missing_body() {
    let (result, warnings) = partial_parse(
        vec![
            dummy_token(TokenType::Keyword(Kw::While)),
            token(TokenType::Keyword(Kw::True), (6, 3), (6, 7)),
            dummy_token(TokenType::Operator(Op::CloseCurlyBracket)),
        ],
        parse_expression,
    );
    assert_eq!(
        result.unwrap_err(),
        ParserError {
            error: ParserErrorVariant::WhileLoopMissingBody,
            pos: Position::new(6, 7),
        }
    );

    assert!(warnings.is_empty());
}

#[test]
fn while_loop_missing_condition() {
    let (result, warnings) = partial_parse(
        vec![
            dummy_token(TokenType::Keyword(Kw::While)),
            dummy_token(TokenType::Operator(Op::OpenCurlyBracket)),
            token(TokenType::Operator(Op::CloseCurlyBracket), (9, 8), (9, 9)),
            dummy_token(TokenType::Operator(Op::Semicolon)),
        ],
        parse_expression,
    );
    assert_eq!(
        result.unwrap_err(),
        ParserError {
            error: ParserErrorVariant::WhileLoopMissingBody,
            pos: Position::new(9, 9),
        }
    );

    assert!(warnings.is_empty());
}

#[test]
fn while_loop_out_of_tokens() {
    let (result, warnings) = partial_parse(
        vec![
            dummy_token(TokenType::Keyword(Kw::While)),
            token(TokenType::Keyword(Kw::True), (2, 3), (2, 7)),
        ],
        parse_expression,
    );
    assert_eq!(
        result.unwrap_err(),
        ParserError {
            error: ParserErrorVariant::WhileLoopMissingBody,
            pos: Position::new(2, 7),
        }
    );

    assert!(warnings.is_empty());
}
