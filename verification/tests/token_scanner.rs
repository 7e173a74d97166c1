use interpreter::interpreter::ExecutionErrorVariant;
use interpreter::parser::grammar::expressions::declaration::DeclarationExpr;
use interpreter::parser::grammar::expressions::statement::Statement;
use interpreter::parser::grammar::function::{FunctionDefinition, Parameter};
use interpreter::parser::grammar::program::Program;
use interpreter::parser::grammar::{DataType, Value};
use interpreter::parser::keywords::Keyword;
use interpreter::parser::operators::Operator;
use interpreter::parser::position::Position;
use interpreter::parser::token::{Token, TokenType};
use interpreter::parser::token_scanner::{parser_tokens, TokenScanner};
use interpreter::scannable::Scannable;
use interpreter::parser::Parser;
use interpreter::position::Position as LexemPosition;
use interpreter::token::{Token as Lexem, TokenType as LexemType};

fn lexem(token_type: LexemType, (r1, c1): (usize, usize), (r2, c2): (usize, usize)) -> Lexem {
    Lexem {
        token_type,
        start: LexemPosition { row: r1, col: c1, byte: 0 },
        stop: LexemPosition { row: r2, col: c2, byte: 0 },
    }
}

fn same(a: &Token, b: &Token) -> bool {
    a.token_type == b.token_type && a.start == b.start && a.stop == b.stop
}

#[test]
fn comments_are_skipped_and_end_marker_closes() {
    let tokens = parser_tokens(&vec![
        lexem(LexemType::Keyword(Keyword::Fn), (1, 1), (1, 3)),
        lexem(LexemType::Comment("note".to_owned()), (1, 4), (1, 12)),
        lexem(LexemType::Identifier("f".to_owned()), (2, 1), (2, 2)),
        lexem(LexemType::Comment("tail".to_owned()), (3, 1), (3, 9)),
    ]);
    let expected = vec![
        Token {
            token_type: TokenType::Keyword(Keyword::Fn),
            start: Position::new(1, 1),
            stop: Position::new(1, 3),
        },
        Token {
            token_type: TokenType::Identifier("f".to_owned()),
            start: Position::new(2, 1),
            stop: Position::new(2, 2),
        },
        Token {
            token_type: TokenType::EndOfTokens,
            start: Position::new(2, 2),
            stop: Position::new(2, 2),
        },
    ];
    assert_eq!(tokens.len(), expected.len());
    for (a, b) in tokens.iter().zip(expected.iter()) {
        assert!(same(a, b));
    }
}

#[test]
fn no_lexems_give_only_the_end_marker() {
    let tokens = parser_tokens(&vec![lexem(LexemType::Comment("x".to_owned()), (1, 1), (1, 3))]);
    assert_eq!(tokens.len(), 1);
    assert!(same(&tokens[0], &Token::empty()));
}

#[test]
fn payloads_are_kept() {
    let tokens = parser_tokens(&vec![
        lexem(LexemType::Int(7), (1, 1), (1, 2)),
        lexem(LexemType::Float(2.5_f64.to_bits()), (1, 3), (1, 6)),
        lexem(LexemType::String("s".to_owned()), (1, 7), (1, 10)),
        lexem(LexemType::Operator(Operator::Plus), (1, 11), (1, 12)),
    ]);
    assert_eq!(tokens[0].token_type, TokenType::Int(7));
    assert_eq!(tokens[1].token_type, TokenType::Float(2.5_f64.to_bits()));
    assert_eq!(tokens[2].token_type, TokenType::String("s".to_owned()));
    assert_eq!(tokens[3].token_type, TokenType::Operator(Operator::Plus));
    assert!(same(
        &tokens[4],
        &Token {
            token_type: TokenType::EndOfTokens,
            start: Position::new(1, 12),
            stop: Position::new(1, 12)
        }
    ));
}

#[test]
fn parser_reads_lexems() {
    let lexems = vec![
        lexem(LexemType::Keyword(Keyword::Fn), (1, 1), (1, 3)),
        lexem(LexemType::Identifier("main".to_owned()), (1, 4), (1, 8)),
        lexem(LexemType::Operator(Operator::OpenRoundBracket), (1, 8), (1, 9)),
        lexem(LexemType::Operator(Operator::CloseRoundBracket), (1, 9), (1, 10)),
        lexem(LexemType::Comment("body".to_owned()), (1, 11), (1, 18)),
        lexem(LexemType::Operator(Operator::OpenCurlyBracket), (2, 1), (2, 2)),
        lexem(LexemType::Keyword(Keyword::Let), (3, 5), (3, 8)),
        lexem(LexemType::Identifier("a".to_owned()), (3, 9), (3, 10)),
        lexem(LexemType::Operator(Operator::Colon), (3, 10), (3, 11)),
        lexem(LexemType::Keyword(Keyword::Int), (3, 12), (3, 15)),
        lexem(LexemType::Operator(Operator::Equal), (3, 16), (3, 17)),
        lexem(LexemType::Int(5), (3, 18), (3, 19)),
        lexem(LexemType::Operator(Operator::Semicolon), (3, 19), (3, 20)),
        lexem(LexemType::Operator(Operator::CloseCurlyBracket), (4, 1), (4, 2)),
    ];
    let mut parser = Parser::from_lexems(&lexems, -1);
    let program = parser.parse().unwrap();
    assert!(parser.get_warnings().is_empty());
    assert_eq!(
        program,
        Program::new(vec![FunctionDefinition {
            identifier: "main".to_owned(),
            params: vec![],
            statements: vec![
                DeclarationExpr::new("a".to_owned(), DataType::Integer, Value::Int(5).into()).into(),
                Statement::Semicolon,
            ],
            data_type: DataType::Nothing,
        }])
    );
    assert_eq!(program.main_function().unwrap().identifier, "main");
}

#[test]
fn main_function_checks() {
    let empty = Program::new(vec![]);
    assert_eq!(
        empty.main_function().unwrap_err().variant,
        ExecutionErrorVariant::MissingMainFunction
    );
    let typed = Program::new(vec![FunctionDefinition::new(
        "main".to_owned(),
        vec![],
        vec![],
        DataType::Integer,
    )]);
    assert_eq!(typed.main_function().unwrap_err().variant, ExecutionErrorVariant::InvalidType);
    let with_params = Program::new(vec![FunctionDefinition::new(
        "main".to_owned(),
        vec![Parameter::new("a".to_owned(), DataType::Integer)],
        vec![],
        DataType::Nothing,
    )]);
    assert_eq!(
        with_params.main_function().unwrap_err().variant,
        ExecutionErrorVariant::InvalidArgumentCount
    );
    let other = Program::new(vec![FunctionDefinition::new(
        "mainly".to_owned(),
        vec![],
        vec![],
        DataType::Nothing,
    )]);
    assert_eq!(
        other.main_function().unwrap_err().variant,
        ExecutionErrorVariant::MissingMainFunction
    );
}

#[test]
fn cloned_value_is_equal() {
    let v = Value::List(vec![
        Value::Int(1),
        Value::String("a".to_owned()),
        Value::List(vec![Value::Bool(true), Value::Nothing]),
        Value::Float(1.5_f64.to_bits()),
    ]);
    assert_eq!(v.clone(), v);
}

#[test]
fn token_scanner_pop_reports_the_end() {
    let lexems = vec![
        lexem(LexemType::Int(1), (1, 1), (1, 2)),
        lexem(LexemType::Comment("c".to_owned()), (1, 3), (1, 5)),
        lexem(LexemType::Int(2), (2, 1), (2, 2)),
    ];
    let mut scanner = TokenScanner::new(&lexems);
    assert_eq!(scanner.curr().token_type, TokenType::Int(1));
    assert!(!scanner.pop());
    assert_eq!(scanner.curr().token_type, TokenType::Int(2));
    assert!(scanner.pop());
    assert!(same(
        &scanner.curr(),
        &Token {
            token_type: TokenType::EndOfTokens,
            start: Position::new(2, 2),
            stop: Position::new(2, 2)
        }
    ));
    assert!(scanner.pop());
    let mut parser = Parser::from_lexems(&lexems, -1);
    assert!(!parser.pop());
    assert!(parser.pop());
}
