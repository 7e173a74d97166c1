use vstd::prelude::*;

use self::{
    assignment::AssignmentExpr,
    binary::{BinaryExpr, BinaryOperator},
    code_block::CodeBlockExpr,
    declaration::DeclarationExpr,
    for_expr::ForExpr,
    function_call::FunctionCallExpr,
    identifier::IdentifierExpr,
    if_else::IfElseExpr,
    list::ListExpr,
    list_access::{IndexOrRange, ListAccessExpr},
    literal::LiteralExpr,
    return_expr::ReturnExpr,
    statement::Statement,
    unary::{UnaryExpr, UnaryOperator},
    while_expr::WhileExpr,
};
use super::{DataType, Value};

pub mod assignment;
pub mod binary;
pub mod code_block;
pub mod declaration;
pub mod for_expr;
pub mod function_call;
pub mod identifier;
pub mod if_else;
pub mod list;
pub mod list_access;
pub mod literal;
pub mod return_expr;
pub mod statement;
pub mod unary;
pub mod while_expr;
use self::{
    assignment::spec_parse_variable_assignment_expression, code_block::spec_parse_code_block_expression,
    declaration::spec_parse_variable_declaration, for_expr::spec_parse_for_expression,
    function_call::spec_parse_identifier_or_function_call_expression,
    if_else::spec_parse_if_else_expression, list::spec_parse_list_expression,
    literal::spec_parse_literal_expression, return_expr::spec_parse_return,
    while_expr::spec_parse_while_expression,
};
use super::utility::{fail_at, spec_expect_operator, spec_operator, ErroVar, Op, OptRes, Parsed, Res, WarnVar};
use crate::parser::{not_behind, remaining, spec_warn, ParseEnv, ParseState};
use self::{
    assignment::parse_variable_assignment_expression, code_block::parse_code_block_expression,
    declaration::parse_variable_declaration, for_expr::parse_for_expression,
    function_call::parse_identifier_or_function_call_expression,
    if_else::parse_if_else_expression, list::parse_list_expression,
    literal::parse_literal_expression, return_expr::parse_return,
    while_expr::parse_while_expression,
};
use super::utility::{parsed, parsed_res, ErrorHandler, Parser, ParsingHelper};
use crate::parser::advance;

verus! {

/// An expression of the syntax tree
#[derive(Debug, PartialEq)]
pub enum Expression {
    Assignment(AssignmentExpr),
    Binary(BinaryExpr),
    CodeBlock(CodeBlockExpr),
    Declaration(DeclarationExpr),
    For(ForExpr),
    FunctionCall(FunctionCallExpr),
    Identifier(IdentifierExpr),
    IfElse(IfElseExpr),
    ListAccess(ListAccessExpr),
    List(ListExpr),
    Literal(LiteralExpr),
    Return(ReturnExpr),
    Unary(UnaryExpr),
    While(WhileExpr),
}

/// Mathematical model of an expression: the same tree with sequences in
/// place of vectors.
#[allow(inconsistent_fields)]
pub enum ExprModel {
    Assignment { identifier: Box<ExprModel>, expression: Box<ExprModel> },
    Binary { lhs: Box<ExprModel>, operator: BinaryOperator, rhs: Box<ExprModel> },
    CodeBlock(Seq<StatementModel>),
    Declaration { identifier: String, data_type: DataType, expression: Box<ExprModel> },
    For { variable: String, provider: Box<ExprModel>, body: Seq<StatementModel> },
    FunctionCall { identifier: Box<ExprModel>, arguments: Seq<ExprModel> },
    Identifier(String),
    IfElse {
        condition: Box<ExprModel>,
        true_case: Seq<StatementModel>,
        false_case: Option<Seq<StatementModel>>,
    },
    ListAccess { list: Box<ExprModel>, access: AccessModel },
    List(Seq<ExprModel>),
    Literal(Value),
    Return(Option<Box<ExprModel>>),
    Unary { operator: UnaryOperator, expression: Box<ExprModel> },
    While { condition: Box<ExprModel>, body: Seq<StatementModel> },
}

/// Mathematical model of a statement
pub enum StatementModel {
    Expression(ExprModel),
    Semicolon,
}

/// Mathematical model of a list access
pub enum AccessModel {
    Index(Box<ExprModel>),
    Range(Box<ExprModel>, Box<ExprModel>),
}

/// The model of an expression.
pub open spec fn expr_model(e: Expression) -> ExprModel
    decreases e,
{
    match e {
        Expression::Assignment(x) => ExprModel::Assignment {
            identifier: Box::new(expr_model(*x.identifier)),
            expression: Box::new(expr_model(*x.expression)),
        },
        Expression::Binary(x) => ExprModel::Binary {
            lhs: Box::new(expr_model(*x.lhs)),
            operator: x.operator,
            rhs: Box::new(expr_model(*x.rhs)),
        },
        Expression::CodeBlock(x) => ExprModel::CodeBlock(statements_model(x.0@)),
        Expression::Declaration(x) => ExprModel::Declaration {
            identifier: x.identifier,
            data_type: x.data_type,
            expression: Box::new(expr_model(*x.expression)),
        },
        Expression::For(x) => ExprModel::For {
            variable: x.variable,
            provider: Box::new(expr_model(*x.provider)),
            body: statements_model(x.body@),
        },
        Expression::FunctionCall(x) => ExprModel::FunctionCall {
            identifier: Box::new(expr_model(*x.identifier)),
            arguments: exprs_model(x.arguments@),
        },
        Expression::Identifier(x) => ExprModel::Identifier(x.0),
        Expression::IfElse(x) => ExprModel::IfElse {
            condition: Box::new(expr_model(*x.condition)),
            true_case: statements_model(x.true_case@),
            false_case: match x.false_case {
                Some(v) => Some(statements_model(v@)),
                None => None,
            },
        },
        Expression::ListAccess(x) => ExprModel::ListAccess {
            list: Box::new(expr_model(*x.list)),
            access: access_model(x.access),
        },
        Expression::List(x) => ExprModel::List(exprs_model(x.0@)),
        Expression::Literal(x) => ExprModel::Literal(x.0),
        Expression::Return(x) => ExprModel::Return(
            match x.0 {
                Some(v) => Some(Box::new(expr_model(*v))),
                None => None,
            },
        ),
        Expression::Unary(x) => ExprModel::Unary {
            operator: x.operator,
            expression: Box::new(expr_model(*x.expression)),
        },
        Expression::While(x) => ExprModel::While {
            condition: Box::new(expr_model(*x.condition)),
            body: statements_model(x.body@),
        },
    }
}

/// The model of a list access.
pub open spec fn access_model(a: IndexOrRange) -> AccessModel
    decreases a,
{
    match a {
        IndexOrRange::Index(i) => AccessModel::Index(Box::new(expr_model(*i))),
        IndexOrRange::Range(l, r) => AccessModel::Range(
            Box::new(expr_model(*l)),
            Box::new(expr_model(*r)),
        ),
    }
}

/// The model of a statement.
pub open spec fn statement_model(s: Statement) -> StatementModel
    decreases s,
{
    match s {
        Statement::Expression(e) => StatementModel::Expression(expr_model(e)),
        Statement::Semicolon => StatementModel::Semicolon,
    }
}

/// The models of a sequence of statements, one for one.
pub open spec fn statements_model(v: Seq<Statement>) -> Seq<StatementModel>
    decreases v,
{
    if v.len() == 0 {
        Seq::empty()
    } else {
        statements_model(v.drop_last()).push(statement_model(v.last()))
    }
}

/// The models of a sequence of expressions, one for one.
pub open spec fn exprs_model(v: Seq<Expression>) -> Seq<ExprModel>
    decreases v,
{
    if v.len() == 0 {
        Seq::empty()
    } else {
        exprs_model(v.drop_last()).push(expr_model(v.last()))
    }
}


/// The model of a parsing result.
pub open spec fn opt_expr_model(r: OptRes<Expression>) -> OptRes<ExprModel> {
    match r {
        Ok(Some(x)) => Ok(Some(expr_model(x))),
        Ok(None) => Ok(None),
        Err(x) => Err(x),
    }
}

/// grouped
///     = OPEN_BRACKET, expression, CLOSE_BRACKET
///     ;
pub open spec fn spec_parse_bracket_expression(e: ParseEnv, s: ParseState) -> Parsed<ExprModel>
    decreases remaining(e, s), 16int,
{
    proof {
        reveal(spec_operator);
    }
    let (s1, open) = spec_operator(e, s, Op::OpenRoundBracket);
    if !open {
        (s1, Ok(None))
    } else {
        let (s2, r) = spec_parse_expression(e, s1);
        match r {
            Err(x) => (s2, Err(x)),
            Ok(None) => fail_at(s2, ErroVar::InvalidBracketExpression),
            Ok(Some(x)) => {
                let (s3, w) = spec_expect_operator(
                    e,
                    s2,
                    Op::CloseRoundBracket,
                    WarnVar::MissingClosingRoundBracket,
                );
                match w {
                    Err(y) => (s3, Err(y)),
                    Ok(_) => (s3, Ok(Some(x))),
                }
            },
        }
    }
}

/// const_or_identifier_or_function_call_expression
///     = constant | list_expression | grouped | identifier_or_function_call
///     ;
pub open spec fn spec_parse_constant_or_identifier_or_bracket_expression(
    e: ParseEnv,
    s: ParseState,
) -> Parsed<ExprModel>
    decreases remaining(e, s), 17int,
{
    let (s1, r1) = spec_parse_literal_expression(e, s);
    match r1 {
        Ok(None) => if !not_behind(s, s1) {
            (s1, Ok(None))
        } else {
            let (s2, r2) = spec_parse_list_expression(e, s1);
            match r2 {
                Ok(None) => if !not_behind(s, s2) {
                    (s2, Ok(None))
                } else {
                    let (s3, r3) = spec_parse_bracket_expression(e, s2);
                    match r3 {
                        Ok(None) => if !not_behind(s, s3) {
                            (s3, Ok(None))
                        } else {
                            spec_parse_identifier_or_function_call_expression(e, s3)
                        },
                        _ => (s3, r3),
                    }
                },
                _ => (s2, r2),
            }
        },
        _ => (s1, r1),
    }
}

/// control_flow_expression
///     = variable_assignment_expression
///     | for_expression
///     | while_expression
///     | if_expression
///     | code_block
///     ;
pub open spec fn spec_parse_control_flow_expression(e: ParseEnv, s: ParseState) -> Parsed<
    ExprModel,
>
    decreases remaining(e, s), 41int,
{
    let (s1, r1) = spec_parse_variable_assignment_expression(e, s);
    match r1 {
        Ok(None) => if !not_behind(s, s1) {
            (s1, Ok(None))
        } else {
            let (s2, r2) = spec_parse_for_expression(e, s1);
            match r2 {
                Ok(None) => if !not_behind(s, s2) {
                    (s2, Ok(None))
                } else {
                    let (s3, r3) = spec_parse_while_expression(e, s2);
                    match r3 {
                        Ok(None) => if !not_behind(s, s3) {
                            (s3, Ok(None))
                        } else {
                            let (s4, r4) = spec_parse_if_else_expression(e, s3);
                            match r4 {
                                Ok(None) => if !not_behind(s, s4) {
                                    (s4, Ok(None))
                                } else {
                                    spec_parse_code_block_expression(e, s4)
                                },
                                _ => (s4, r4),
                            }
                        },
                        _ => (s3, r3),
                    }
                },
                _ => (s2, r2),
            }
        },
        _ => (s1, r1),
    }
}

/// expression
///     = return
///     | variable_declaration
///     | control_flow_expression
///     ;
pub open spec fn spec_parse_expression(e: ParseEnv, s: ParseState) -> Parsed<ExprModel>
    decreases remaining(e, s), 43int,
{
    let (s1, r1) = spec_parse_return(e, s);
    match r1 {
        Ok(None) => if !not_behind(s, s1) {
            (s1, Ok(None))
        } else {
            let (s2, r2) = spec_parse_variable_declaration(e, s1);
            match r2 {
                Ok(None) => if !not_behind(s, s2) {
                    (s2, Ok(None))
                } else {
                    spec_parse_control_flow_expression(e, s2)
                },
                _ => (s2, r2),
            }
        },
        _ => (s1, r1),
    }
}

/// expressions
///     = [expression, {SPLIT, expression}]
///     ;
/// A `SPLIT` not followed by an expression is reported and skipped.
pub open spec fn spec_parse_expression_list(e: ParseEnv, s: ParseState) -> (
    ParseState,
    Res<Seq<ExprModel>>,
)
    decreases remaining(e, s), 45int,
{
    let (s1, r) = spec_parse_expression(e, s);
    match r {
        Err(x) => (s1, Err(x)),
        Ok(None) => (s1, Ok(Seq::empty())),
        Ok(Some(x)) => if !not_behind(s, s1) {
            (s1, Ok(seq![x]))
        } else {
            spec_parse_expression_list_tail(e, s1, seq![x])
        },
    }
}

/// The expressions that follow the ones in `acc`.
pub open spec fn spec_parse_expression_list_tail(
    e: ParseEnv,
    s: ParseState,
    acc: Seq<ExprModel>,
) -> (ParseState, Res<Seq<ExprModel>>)
    decreases remaining(e, s), 44int,
{
    proof {
        reveal(spec_operator);
    }
    let (s1, split) = spec_operator(e, s, Op::Split);
    if !split {
        (s1, Ok(acc))
    } else {
        let (s2, r) = spec_parse_expression(e, s1);
        match r {
            Err(x) => (s2, Err(x)),
            Ok(Some(x)) => if !not_behind(s1, s2) {
                (s2, Ok(acc))
            } else {
                spec_parse_expression_list_tail(e, s2, acc.push(x))
            },
            Ok(None) => {
                let (s3, w) = spec_warn(e, s2, WarnVar::ExpectedExpression);
                match w {
                    Err(y) => (s3, Err(y)),
                    Ok(_) => if !not_behind(s1, s3) {
                        (s3, Ok(acc))
                    } else {
                        spec_parse_expression_list_tail(e, s3, acc)
                    },
                }
            },
        }
    }
}


/// The models of a list of expressions found by a parsing step.
pub open spec fn res_exprs_model(r: Res<Vec<Expression>>) -> Res<Seq<ExprModel>> {
    match r {
        Ok(v) => Ok(exprs_model(v@)),
        Err(x) => Err(x),
    }
}

/// The models of an optional list of expressions found by a parsing step.
pub open spec fn opt_exprs_model(r: OptRes<Vec<Expression>>) -> OptRes<Seq<ExprModel>> {
    match r {
        Ok(Some(v)) => Ok(Some(exprs_model(v@))),
        Ok(None) => Ok(None),
        Err(x) => Err(x),
    }
}

pub proof fn lemma_exprs_model_push(v: Seq<Expression>, x: Expression)
    ensures
        exprs_model(v.push(x)) == exprs_model(v).push(expr_model(x)),
{
    assert(v.push(x).drop_last() =~= v);
}

/// expressions
///     = [expression, {SPLIT, expression}]
///     ;
fn parse_expression_list(p: &mut Parser) -> (r: Res<Vec<Expression>>)
    ensures
        parsed_res(
            *old(p),
            *final(p),
            res_exprs_model(r),
            spec_parse_expression_list(old(p).env(), old(p).state()),
        ),
    decreases remaining(old(p).env(), old(p).state()), 45int,
{
    let mut expressions: Vec<Expression> = Vec::new();
    if let Some(expression) = parse_expression(p)? {
        proof {
            lemma_exprs_model_push(expressions@, expression);
        }
        expressions.push(expression);
        loop
            invariant
                p.env() == old(p).env(),
                spec_parse_expression_list_tail(p.env(), p.state(), exprs_model(expressions@))
                    == spec_parse_expression_list(old(p).env(), old(p).state()),
                advance(old(p).env(), old(p).state(), p.state(), false),
            decreases remaining(p.env(), p.state()),
        {
            if !p.operator(Op::Split)? {
                return Ok(expressions);
            }
            if let Some(expression) = parse_expression(p)? {
                proof {
                    lemma_exprs_model_push(expressions@, expression);
                }
                expressions.push(expression);
            } else {
                p.warn(WarnVar::ExpectedExpression)?;
            }
        }
    }
    Ok(expressions)
}

/// grouped
///     = OPEN_BRACKET, expression, CLOSE_BRACKET
///     ;
fn parse_bracket_expression(p: &mut Parser) -> (r: OptRes<Expression>)
    ensures
        parsed(
            *old(p),
            *final(p),
            opt_expr_model(r),
            spec_parse_bracket_expression(old(p).env(), old(p).state()),
        ),
    decreases remaining(old(p).env(), old(p).state()), 16int,
{
    proof {
        reveal(spec_expect_operator);
    }
    if !p.operator(Op::OpenRoundBracket)? {
        return Ok(None);
    }
    let expression = match parse_expression(p)? {
        Some(e) => e,
        None => return Err(p.error(ErroVar::InvalidBracketExpression)),
    };
    if !p.operator(Op::CloseRoundBracket)? {
        p.warn(WarnVar::MissingClosingRoundBracket)?;
    }
    Ok(Some(expression))
}

/// const_or_identifier_or_function_call_expression
///     = constant | list_expression | grouped | identifier_or_function_call
///     ;
fn parse_constant_or_identifier_or_bracket_expression(p: &mut Parser) -> (r: OptRes<Expression>)
    ensures
        parsed(
            *old(p),
            *final(p),
            opt_expr_model(r),
            spec_parse_constant_or_identifier_or_bracket_expression(old(p).env(), old(p).state()),
        ),
    decreases remaining(old(p).env(), old(p).state()), 17int,
{
    if let Some(e) = parse_literal_expression(p)? {
        return Ok(Some(e));
    }
    if let Some(e) = parse_list_expression(p)? {
        return Ok(Some(e));
    }
    if let Some(e) = parse_bracket_expression(p)? {
        return Ok(Some(e));
    }
    parse_identifier_or_function_call_expression(p)
}

/// control_flow_expression
///     = variable_assignment_expression
///     | for_expression
///     | while_expression
///     | if_expression
///     | code_block
///     ;
fn parse_control_flow_expression(p: &mut Parser) -> (r: OptRes<Expression>)
    ensures
        parsed(
            *old(p),
            *final(p),
            opt_expr_model(r),
            spec_parse_control_flow_expression(old(p).env(), old(p).state()),
        ),
    decreases remaining(old(p).env(), old(p).state()), 41int,
{
    if let Some(e) = parse_variable_assignment_expression(p)? {
        return Ok(Some(e));
    }
    if let Some(e) = parse_for_expression(p)? {
        return Ok(Some(e));
    }
    if let Some(e) = parse_while_expression(p)? {
        return Ok(Some(e));
    }
    if let Some(e) = parse_if_else_expression(p)? {
        return Ok(Some(e));
    }
    parse_code_block_expression(p)
}

/// expression
///     = return
///     | variable_declaration
///     | control_flow_expression
///     ;
pub fn parse_expression(p: &mut Parser) -> (r: OptRes<Expression>)
    ensures
        parsed(
            *old(p),
            *final(p),
            opt_expr_model(r),
            spec_parse_expression(old(p).env(), old(p).state()),
        ),
    decreases remaining(old(p).env(), old(p).state()), 43int,
{
    if let Some(return_expr) = parse_return(p)? {
        Ok(Some(return_expr))
    } else if let Some(declaration) = parse_variable_declaration(p)? {
        Ok(Some(declaration))
    } else {
        parse_control_flow_expression(p)
    }
}

} // verus!
