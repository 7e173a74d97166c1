use vstd::prelude::*;

use super::{
    assignment::AssignmentExpr, binary::BinaryExpr, code_block::CodeBlockExpr,
    declaration::DeclarationExpr, for_expr::ForExpr, function_call::FunctionCallExpr,
    identifier::IdentifierExpr, if_else::IfElseExpr, list::ListExpr, list_access::ListAccessExpr,
    literal::LiteralExpr, return_expr::ReturnExpr, unary::UnaryExpr, while_expr::WhileExpr,
    Expression,
};
use crate::parser::grammar::Value;
use super::{spec_parse_expression, statement_model, statements_model, ExprModel, StatementModel};
use crate::parser::{
    grammar::utility::{spec_expect_operator, spec_operator, Op, Parsed, Res, WarnVar},
    ahead, not_behind, remaining, ParseEnv, ParseState,
};
use super::parse_expression;
use crate::parser::{
    advance,
    grammar::utility::{parsed, parsed_res, ErrorHandler, OptRes, Parser, ParsingHelper},
};

verus! {

/// A single statement.
/// Either an expression or a `;`.
#[derive(Debug, PartialEq)]
pub enum Statement {
    Expression(Expression),
    Semicolon,
}

impl From<Expression> for Statement {
    fn from(e: Expression) -> (r: Self)
        ensures
            r == Statement::Expression(e),
    {
        Statement::Expression(e)
    }
}

impl vstd::std_specs::convert::FromSpecImpl<Expression> for Statement {
    open spec fn obeys_from_spec() -> bool {
        true
    }

    open spec fn from_spec(e: Expression) -> Self {
        Statement::Expression(e)
    }
}

impl From<AssignmentExpr> for Statement {
    fn from(e: AssignmentExpr) -> (r: Self)
        ensures
            r == Statement::Expression(Expression::Assignment(e)),
    {
        Statement::Expression(Expression::Assignment(e))
    }
}

impl vstd::std_specs::convert::FromSpecImpl<AssignmentExpr> for Statement {
    open spec fn obeys_from_spec() -> bool {
        true
    }

    open spec fn from_spec(e: AssignmentExpr) -> Self {
        Statement::Expression(Expression::Assignment(e))
    }
}

impl From<BinaryExpr> for Statement {
    fn from(e: BinaryExpr) -> (r: Self)
        ensures
            r == Statement::Expression(Expression::Binary(e)),
    {
        Statement::Expression(Expression::Binary(e))
    }
}

impl vstd::std_specs::convert::FromSpecImpl<BinaryExpr> for Statement {
    open spec fn obeys_from_spec() -> bool {
        true
    }

    open spec fn from_spec(e: BinaryExpr) -> Self {
        Statement::Expression(Expression::Binary(e))
    }
}

impl From<CodeBlockExpr> for Statement {
    fn from(e: CodeBlockExpr) -> (r: Self)
        ensures
            r == Statement::Expression(Expression::CodeBlock(e)),
    {
        Statement::Expression(Expression::CodeBlock(e))
    }
}

impl vstd::std_specs::convert::FromSpecImpl<CodeBlockExpr> for Statement {
    open spec fn obeys_from_spec() -> bool {
        true
    }

    open spec fn from_spec(e: CodeBlockExpr) -> Self {
        Statement::Expression(Expression::CodeBlock(e))
    }
}

impl From<DeclarationExpr> for Statement {
    fn from(e: DeclarationExpr) -> (r: Self)
        ensures
            r == Statement::Expression(Expression::Declaration(e)),
    {
        Statement::Expression(Expression::Declaration(e))
    }
}

impl vstd::std_specs::convert::FromSpecImpl<DeclarationExpr> for Statement {
    open spec fn obeys_from_spec() -> bool {
        true
    }

    open spec fn from_spec(e: DeclarationExpr) -> Self {
        Statement::Expression(Expression::Declaration(e))
    }
}

impl From<ForExpr> for Statement {
    fn from(e: ForExpr) -> (r: Self)
        ensures
            r == Statement::Expression(Expression::For(e)),
    {
        Statement::Expression(Expression::For(e))
    }
}

impl vstd::std_specs::convert::FromSpecImpl<ForExpr> for Statement {
    open spec fn obeys_from_spec() -> bool {
        true
    }

    open spec fn from_spec(e: ForExpr) -> Self {
        Statement::Expression(Expression::For(e))
    }
}

impl From<FunctionCallExpr> for Statement {
    fn from(e: FunctionCallExpr) -> (r: Self)
        ensures
            r == Statement::Expression(Expression::FunctionCall(e)),
    {
        Statement::Expression(Expression::FunctionCall(e))
    }
}

impl vstd::std_specs::convert::FromSpecImpl<FunctionCallExpr> for Statement {
    open spec fn obeys_from_spec() -> bool {
        true
    }

    open spec fn from_spec(e: FunctionCallExpr) -> Self {
        Statement::Expression(Expression::FunctionCall(e))
    }
}

impl From<IdentifierExpr> for Statement {
    fn from(e: IdentifierExpr) -> (r: Self)
        ensures
            r == Statement::Expression(Expression::Identifier(e)),
    {
        Statement::Expression(Expression::Identifier(e))
    }
}

impl vstd::std_specs::convert::FromSpecImpl<IdentifierExpr> for Statement {
    open spec fn obeys_from_spec() -> bool {
        true
    }

    open spec fn from_spec(e: IdentifierExpr) -> Self {
        Statement::Expression(Expression::Identifier(e))
    }
}

impl From<IfElseExpr> for Statement {
    fn from(e: IfElseExpr) -> (r: Self)
        ensures
            r == Statement::Expression(Expression::IfElse(e)),
    {
        Statement::Expression(Expression::IfElse(e))
    }
}

impl vstd::std_specs::convert::FromSpecImpl<IfElseExpr> for Statement {
    open spec fn obeys_from_spec() -> bool {
        true
    }

    open spec fn from_spec(e: IfElseExpr) -> Self {
        Statement::Expression(Expression::IfElse(e))
    }
}

impl From<ListExpr> for Statement {
    fn from(e: ListExpr) -> (r: Self)
        ensures
            r == Statement::Expression(Expression::List(e)),
    {
        Statement::Expression(Expression::List(e))
    }
}

impl vstd::std_specs::convert::FromSpecImpl<ListExpr> for Statement {
    open spec fn obeys_from_spec() -> bool {
        true
    }

    open spec fn from_spec(e: ListExpr) -> Self {
        Statement::Expression(Expression::List(e))
    }
}

impl From<ListAccessExpr> for Statement {
    fn from(e: ListAccessExpr) -> (r: Self)
        ensures
            r == Statement::Expression(Expression::ListAccess(e)),
    {
        Statement::Expression(Expression::ListAccess(e))
    }
}

impl vstd::std_specs::convert::FromSpecImpl<ListAccessExpr> for Statement {
    open spec fn obeys_from_spec() -> bool {
        true
    }

    open spec fn from_spec(e: ListAccessExpr) -> Self {
        Statement::Expression(Expression::ListAccess(e))
    }
}

impl From<LiteralExpr> for Statement {
    fn from(e: LiteralExpr) -> (r: Self)
        ensures
            r == Statement::Expression(Expression::Literal(e)),
    {
        Statement::Expression(Expression::Literal(e))
    }
}

impl vstd::std_specs::convert::FromSpecImpl<LiteralExpr> for Statement {
    open spec fn obeys_from_spec() -> bool {
        true
    }

    open spec fn from_spec(e: LiteralExpr) -> Self {
        Statement::Expression(Expression::Literal(e))
    }
}

impl From<ReturnExpr> for Statement {
    fn from(e: ReturnExpr) -> (r: Self)
        ensures
            r == Statement::Expression(Expression::Return(e)),
    {
        Statement::Expression(Expression::Return(e))
    }
}

impl vstd::std_specs::convert::FromSpecImpl<ReturnExpr> for Statement {
    open spec fn obeys_from_spec() -> bool {
        true
    }

    open spec fn from_spec(e: ReturnExpr) -> Self {
        Statement::Expression(Expression::Return(e))
    }
}

impl From<UnaryExpr> for Statement {
    fn from(e: UnaryExpr) -> (r: Self)
        ensures
            r == Statement::Expression(Expression::Unary(e)),
    {
        Statement::Expression(Expression::Unary(e))
    }
}

impl vstd::std_specs::convert::FromSpecImpl<UnaryExpr> for Statement {
    open spec fn obeys_from_spec() -> bool {
        true
    }

    open spec fn from_spec(e: UnaryExpr) -> Self {
        Statement::Expression(Expression::Unary(e))
    }
}

impl From<WhileExpr> for Statement {
    fn from(e: WhileExpr) -> (r: Self)
        ensures
            r == Statement::Expression(Expression::While(e)),
    {
        Statement::Expression(Expression::While(e))
    }
}

impl vstd::std_specs::convert::FromSpecImpl<WhileExpr> for Statement {
    open spec fn obeys_from_spec() -> bool {
        true
    }

    open spec fn from_spec(e: WhileExpr) -> Self {
        Statement::Expression(Expression::While(e))
    }
}

impl From<Value> for Statement {
    fn from(v: Value) -> (r: Self)
        ensures
            r == Statement::Expression(Expression::Literal(LiteralExpr(v))),
    {
        Statement::Expression(Expression::Literal(LiteralExpr(v)))
    }
}

impl vstd::std_specs::convert::FromSpecImpl<Value> for Statement {
    open spec fn obeys_from_spec() -> bool {
        true
    }

    open spec fn from_spec(v: Value) -> Self {
        Statement::Expression(Expression::Literal(LiteralExpr(v)))
    }
}


/// statement
///     = expression
///     | EXPRESSION_END
///     ;
pub open spec fn spec_parse_statement(e: ParseEnv, s: ParseState) -> Parsed<StatementModel>
    decreases remaining(e, s), 49int,
{
    proof {
        reveal(spec_operator);
    }
    let (s1, semicolon) = spec_operator(e, s, Op::Semicolon);
    if semicolon {
        (s1, Ok(Some(StatementModel::Semicolon)))
    } else if !not_behind(s, s1) {
        (s1, Ok(None))
    } else {
        let (s2, r) = spec_parse_expression(e, s1);
        match r {
            Err(x) => (s2, Err(x)),
            Ok(None) => (s2, Ok(None)),
            Ok(Some(x)) => (s2, Ok(Some(StatementModel::Expression(x)))),
        }
    }
}

/// statements
///     = {statement}
///     ;
pub open spec fn spec_parse_statements(e: ParseEnv, s: ParseState) -> (
    ParseState,
    Res<Seq<StatementModel>>,
)
    decreases remaining(e, s), 51int,
{
    spec_parse_statements_tail(e, s, Seq::empty())
}

/// The statements that follow the ones in `acc`.
pub open spec fn spec_parse_statements_tail(
    e: ParseEnv,
    s: ParseState,
    acc: Seq<StatementModel>,
) -> (ParseState, Res<Seq<StatementModel>>)
    decreases remaining(e, s), 50int,
{
    let (s1, r) = spec_parse_statement(e, s);
    match r {
        Err(x) => (s1, Err(x)),
        Ok(None) => (s1, Ok(acc)),
        Ok(Some(st)) => if !ahead(e, s, s1) {
            (s1, Ok(acc.push(st)))
        } else {
            spec_parse_statements_tail(e, s1, acc.push(st))
        },
    }
}

/// code_block
///     = OPEN_CODEBLOCK, statements, CLOSE_CODEBLOCK
///     ;
pub open spec fn spec_parse_code_block(e: ParseEnv, s: ParseState) -> Parsed<Seq<StatementModel>>
    decreases remaining(e, s), 37int,
{
    proof {
        reveal(spec_operator);
    }
    let (s1, open) = spec_operator(e, s, Op::OpenCurlyBracket);
    if !open {
        (s1, Ok(None))
    } else {
        let (s2, r) = spec_parse_statements(e, s1);
        match r {
            Err(x) => (s2, Err(x)),
            Ok(statements) => {
                let (s3, w) = spec_expect_operator(
                    e,
                    s2,
                    Op::CloseCurlyBracket,
                    WarnVar::MissingClosingCurlyBracket,
                );
                match w {
                    Err(x) => (s3, Err(x)),
                    Ok(_) => (s3, Ok(Some(statements))),
                }
            },
        }
    }
}


/// The model of a statement found by a parsing step.
pub open spec fn opt_statement_model(r: OptRes<Statement>) -> OptRes<StatementModel> {
    match r {
        Ok(Some(x)) => Ok(Some(statement_model(x))),
        Ok(None) => Ok(None),
        Err(x) => Err(x),
    }
}

/// The models of the statements found by a parsing step.
pub open spec fn res_statements_model(r: Res<Vec<Statement>>) -> Res<Seq<StatementModel>> {
    match r {
        Ok(v) => Ok(statements_model(v@)),
        Err(x) => Err(x),
    }
}

/// The models of the optional statements found by a parsing step.
pub open spec fn opt_statements_model(r: OptRes<Vec<Statement>>) -> OptRes<Seq<StatementModel>> {
    match r {
        Ok(Some(v)) => Ok(Some(statements_model(v@))),
        Ok(None) => Ok(None),
        Err(x) => Err(x),
    }
}

pub proof fn lemma_statements_model_push(v: Seq<Statement>, x: Statement)
    ensures
        statements_model(v.push(x)) == statements_model(v).push(statement_model(x)),
{
    assert(v.push(x).drop_last() =~= v);
}

/// statements
///     = {statement}
///     ;
fn parse_statements(p: &mut Parser) -> (r: Res<Vec<Statement>>)
    ensures
        parsed_res(
            *old(p),
            *final(p),
            res_statements_model(r),
            spec_parse_statements(old(p).env(), old(p).state()),
        ),
    decreases remaining(old(p).env(), old(p).state()), 51int,
{
    let mut statements: Vec<Statement> = Vec::new();
    assert(statements_model(statements@) =~= Seq::empty());
    loop
        invariant
            p.env() == old(p).env(),
            spec_parse_statements_tail(p.env(), p.state(), statements_model(statements@))
                == spec_parse_statements(old(p).env(), old(p).state()),
            advance(old(p).env(), old(p).state(), p.state(), false),
        decreases remaining(p.env(), p.state()),
    {
        match parse_statement(p)? {
            Some(statement) => {
                proof {
                    lemma_statements_model_push(statements@, statement);
                }
                statements.push(statement);
            },
            None => return Ok(statements),
        }
    }
}

/// statement
///     = expression
///     | EXPRESSION_END
///     ;
fn parse_statement(p: &mut Parser) -> (r: OptRes<Statement>)
    ensures
        parsed(
            *old(p),
            *final(p),
            opt_statement_model(r),
            spec_parse_statement(old(p).env(), old(p).state()),
        ),
    decreases remaining(old(p).env(), old(p).state()), 49int,
{
    if p.operator(Op::Semicolon)? {
        return Ok(Some(Statement::Semicolon));
    } else if let Some(expression) = parse_expression(p)? {
        return Ok(Some(Statement::Expression(expression)));
    }
    Ok(None)
}

/// code_block
///     = OPEN_CODEBLOCK, statements, CLOSE_CODEBLOCK
///     ;
pub fn parse_code_block(p: &mut Parser) -> (r: OptRes<Vec<Statement>>)
    ensures
        parsed(
            *old(p),
            *final(p),
            opt_statements_model(r),
            spec_parse_code_block(old(p).env(), old(p).state()),
        ),
    decreases remaining(old(p).env(), old(p).state()), 37int,
{
    proof {
        reveal(spec_expect_operator);
    }
    if !p.operator(Op::OpenCurlyBracket)? {
        return Ok(None);
    }
    let statements = parse_statements(p)?;
    if !p.operator(Op::CloseCurlyBracket)? {
        p.warn(WarnVar::MissingClosingCurlyBracket)?;
    }
    Ok(Some(statements))
}

} // verus!
