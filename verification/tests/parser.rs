use interpreter::parser::grammar::expressions::declaration::DeclarationExpr;
use interpreter::parser::grammar::expressions::statement::Statement;
use interpreter::parser::grammar::function::FunctionDefinition;
use interpreter::parser::grammar::program::Program;
use interpreter::parser::grammar::{DataType, Value};
use interpreter::parser::keywords::Keyword;
use interpreter::parser::operators::Operator;
use interpreter::parser::position::Position;
use interpreter::parser::test_utils::{dummy_token, parse, token};
use interpreter::parser::token::TokenType;
use interpreter::parser::{ParserError, ParserErrorVariant, ParserWarningVariant};

#[test]
fn sole_parser() {
    let (result, warnings) = parse(vec![
        dummy_token(TokenType::Keyword(Keyword::Fn)),
        dummy_token(TokenType::Identifier("main".to_owned())),
        dummy_token(TokenType::Operator(Operator::OpenRoundBracket)),
        dummy_token(TokenType::Operator(Operator::CloseRoundBracket)),
        dummy_token(TokenType::Operator(Operator::OpenCurlyBracket)),
        dummy_token(TokenType::Keyword(Keyword::Let)),
        dummy_token(TokenType::Identifier("a".to_owned())),
        dummy_token(TokenType::Operator(Operator::Colon)),
        dummy_token(TokenType::Keyword(Keyword::Int)),
        dummy_token(TokenType::Operator(Operator::Equal)),
        dummy_token(TokenType::Int(5)),
        dummy_token(TokenType::Operator(Operator::Semicolon)),
        dummy_token(TokenType::Operator(Operator::CloseCurlyBracket)),
    ]);

    assert!(warnings.is_empty());

    let functions = vec![FunctionDefinition {
        identifier: "main".to_owned(),
        params: vec![],
        statements: vec![
            DeclarationExpr::new("a".to_owned(), DataType::Integer, Value::Int(5).into())
                .into(),
            Statement::Semicolon,
        ],
        data_type: DataType::Nothing,
    }];

    let program = Program::new(functions);

    assert_eq!(program, result.unwrap());
}

#[test]
fn sole_parser_warn() {
    let (result, warnings) = parse(vec![
        dummy_token(TokenType::Keyword(Keyword::Fn)),
        dummy_token(TokenType::Identifier("main".to_owned())),
        dummy_token(TokenType::Operator(Operator::OpenRoundBracket)),
        dummy_token(TokenType::Operator(Operator::CloseRoundBracket)),
        dummy_token(TokenType::Operator(Operator::OpenCurlyBracket)),
        dummy_token(TokenType::Keyword(Keyword::Let)),
        dummy_token(TokenType::Identifier("a".to_owned())),
        dummy_token(TokenType::Keyword(Keyword::Int)),
        dummy_token(TokenType::Operator(Operator::Equal)),
        dummy_token(TokenType::Int(5)),
        dummy_token(TokenType::Operator(Operator::Semicolon)),
        dummy_token(TokenType::Operator(Operator::CloseCurlyBracket)),
    ]);

    assert_eq!(warnings.len(), 1);
    assert_eq!(
        warnings[0].warning,
        ParserWarningVariant::VariableDeclarationMissingTypeSeparator
    );

    let functions = vec![FunctionDefinition {
        identifier: "main".to_owned(),
        params: vec![],
        statements: vec![
            DeclarationExpr::new("a".to_owned(), DataType::Integer, Value::Int(5).into())
                .into(),
            Statement::Semicolon,
        ],
        data_type: DataType::Nothing,
    }];

    let program = Program::new(functions);

    assert_eq!(program, result.unwrap());
}

#[test]
fn sole_parser_error() {
    let (result, warnings) = parse(vec![
        dummy_token(TokenType::Keyword(Keyword::Fn)),
        dummy_token(TokenType::Identifier("main".to_owned())),
        dummy_token(TokenType::Operator(Operator::OpenRoundBracket)),
        dummy_token(TokenType::Operator(Operator::CloseRoundBracket)),
        dummy_token(TokenType::Operator(Operator::OpenCurlyBracket)),
        dummy_token(TokenType::Keyword(Keyword::Let)),
        dummy_token(TokenType::Identifier("a".to_owned())),
        token(TokenType::Operator(Operator::Colon), (2, 5), (2, 6)),
        dummy_token(TokenType::Operator(Operator::Equal)),
        dummy_token(TokenType::Int(5)),
        dummy_token(TokenType::Operator(Operator::Semicolon)),
        dummy_token(TokenType::Operator(Operator::CloseCurlyBracket)),
    ]);

    assert!(warnings.is_empty());

    assert_eq!(
        ParserError {
            error: ParserErrorVariant::VariableDeclarationMissingType,
            pos: Position::new(2, 6),
        },
        result.unwrap_err()
    );
}
