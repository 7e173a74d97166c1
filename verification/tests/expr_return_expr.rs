#![allow(unused_imports)]

use interpreter::parser::grammar::expressions::assignment::AssignmentExpr;
use interpreter::parser::grammar::expressions::binary::{BinaryExpr, BinaryOperator};
use interpreter::parser::grammar::expressions::code_block::{parse_code_block_expression, CodeBlockExpr};
use interpreter::parser::grammar::expressions::declaration::DeclarationExpr;
use interpreter::parser::grammar::expressions::for_expr::{parse_for_expression, ForExpr};
use interpreter::parser::grammar::expressions::function_call::FunctionCallExpr;
use interpreter::parser::grammar::expressions::identifier::IdentifierExpr;
use interpreter::parser::grammar::expressions::if_else::{parse_if_else_expression, IfElseExpr};
use interpreter::parser::grammar::expressions::list::{parse_list_expression, ListExpr};
use interpreter::parser::grammar::expressions::list_access::{IndexOrRange, ListAccessExpr};
use interpreter::parser::grammar::expressions::literal::{parse_literal_expression, LiteralExpr};
use interpreter::parser::grammar::expressions::return_expr::ReturnExpr;
use interpreter::parser::grammar::expressions::statement::Statement;
use interpreter::parser::grammar::expressions::unary::{UnaryExpr, UnaryOperator};
use interpreter::parser::grammar::expressions::while_expr::{parse_while_expression, WhileExpr};
use interpreter::parser::grammar::expressions::{parse_expression, Expression};
use interpreter::parser::grammar::function::{parse_function_def, FunctionDefinition, Parameter};
use interpreter::parser::grammar::program::{parse_program, Program};
use interpreter::parser::grammar::{DataType, Value};
use interpreter::parser::keywords::Keyword as Kw;
use interpreter::parser::operators::Operator as Op;
use interpreter::parser::position::Position;
use interpreter::parser::test_utils::{dummy_token, token, DummyScanner};
use interpreter::parser::token::{Token, TokenType};
use interpreter::parser::{
    Parser, ParserError, ParserErrorVariant, ParserWarning, ParserWarningVariant,
};

fn partial_parse<T>(
    tokens: Vec<Token>,
    parse_func: fn(&mut Parser) -> Result<Option<T>, ParserError>,
) -> (Result<Option<T>, ParserError>, Vec<ParserWarning>) {
    let mut parser = Parser::new_with_defaults(DummyScanner::new(tokens));
    let result = parse_func(&mut parser);
    (result, parser.get_warnings())
}

#[test]
fn return_expr_return_expr() {
    let (result, warnings) = partial_parse(
        vec![
            dummy_token(TokenType::Keyword(Kw::Return)),
            dummy_token(TokenType::Int(0)),
            dummy_token(TokenType::Operator(Op::Semicolon)),
        ],
        parse_expression,
    );
    assert_eq!(
        result.unwrap().unwrap(),
        ReturnExpr::new(Value::Int(0).into()).into()
    );

    assert!(warnings.is_empty());
}

#[test]
fn return_no_expression() {
    let (result, warnings) = partial_parse(
        vec![
            token(TokenType::Keyword(Kw::Return), (4, 2), (4, 8)),
            dummy_token(TokenType::Operator(Op::Semicolon)),
        ],
        parse_expression,
    );
    assert_eq!(result.unwrap().unwrap(), ReturnExpr::empty().into());

    assert!(warnings.is_empty());
}
