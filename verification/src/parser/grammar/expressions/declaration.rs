use vstd::prelude::*;

use super::Expression;
use crate::parser::grammar::DataType;
use super::{spec_parse_control_flow_expression, ExprModel};
use crate::parser::{
    grammar::{
        types::spec_parse_type,
        utility::{fail_at, spec_expect_operator, spec_identifier, spec_keyword, ErroVar, Kw, Op, Parsed, WarnVar},
    },
    not_behind, remaining, ParseEnv, ParseState,
};
use super::{opt_expr_model, parse_control_flow_expression};
use crate::parser::grammar::{
    types::parse_type,
    utility::{parsed, ErrorHandler, OptRes, Parser, ParsingHelper},
};

verus! {

/// Variable declaration expression
#[derive(Debug, PartialEq)]
pub struct DeclarationExpr {
    pub identifier: String,
    pub data_type: DataType,
    pub expression: Box<Expression>,
}

impl DeclarationExpr {
    pub fn new(identifier: String, data_type: DataType, expression: Expression) -> (r: Self)
        ensures
            r == (DeclarationExpr { identifier, data_type, expression: Box::new(expression) }),
    {
        Self { identifier, data_type, expression: Box::new(expression) }
    }
}

impl From<DeclarationExpr> for Expression {
    fn from(e: DeclarationExpr) -> (r: Self)
        ensures
            r == Expression::Declaration(e),
    {
        Expression::Declaration(e)
    }
}

impl vstd::std_specs::convert::FromSpecImpl<DeclarationExpr> for Expression {
    open spec fn obeys_from_spec() -> bool {
        true
    }

    open spec fn from_spec(e: DeclarationExpr) -> Self {
        Expression::Declaration(e)
    }
}


/// variable_declaration
///     = KW_LET, IDENTIFIER, COLON, type, ASSIGN, control_flow_expression
///     ;
pub open spec fn spec_parse_variable_declaration(e: ParseEnv, s: ParseState) -> Parsed<ExprModel>
    decreases remaining(e, s), 42int,
{
    proof {
        reveal(spec_keyword);
    }
    let (s1, kw) = spec_keyword(e, s, Kw::Let);
    if !kw {
        (s1, Ok(None))
    } else {
        let (s2, id) = spec_identifier(e, s1);
        match id {
            None => fail_at(s2, ErroVar::VariableDeclarationMissingIdentifier),
            Some(identifier) => {
                let (s3, w) = spec_expect_operator(
                    e,
                    s2,
                    Op::Colon,
                    WarnVar::VariableDeclarationMissingTypeSeparator,
                );
                match w {
                    Err(x) => (s3, Err(x)),
                    Ok(_) => {
                        let (s4, t) = spec_parse_type(e, s3);
                        match t {
                            Err(x) => (s4, Err(x)),
                            Ok(None) => fail_at(s4, ErroVar::VariableDeclarationMissingType),
                            Ok(Some(data_type)) => {
                                let (s5, w2) = spec_expect_operator(
                                    e,
                                    s4,
                                    Op::Equal,
                                    WarnVar::VariableDeclarationMissingEqualsSign,
                                );
                                match w2 {
                                    Err(x) => (s5, Err(x)),
                                    Ok(_) => if !not_behind(s1, s5) {
                                        (s5, Ok(None))
                                    } else {
                                        let (s6, r) = spec_parse_control_flow_expression(e, s5);
                                        match r {
                                            Err(x) => (s6, Err(x)),
                                            Ok(None) => fail_at(
                                                s6,
                                                ErroVar::VariableDeclarationMissingExpression,
                                            ),
                                            Ok(Some(x)) => (
                                                s6,
                                                Ok(
                                                    Some(
                                                        ExprModel::Declaration {
                                                            identifier,
                                                            data_type,
                                                            expression: Box::new(x),
                                                        },
                                                    ),
                                                ),
                                            ),
                                        }
                                    },
                                }
                            },
                        }
                    },
                }
            },
        }
    }
}


/// variable_declaration
///     = KW_LET, IDENTIFIER, COLON, type, ASSIGN, control_flow_expression
///     ;
pub fn parse_variable_declaration(p: &mut Parser) -> (r: OptRes<Expression>)
    ensures
        parsed(
            *old(p),
            *final(p),
            opt_expr_model(r),
            spec_parse_variable_declaration(old(p).env(), old(p).state()),
        ),
    decreases remaining(old(p).env(), old(p).state()), 42int,
{
    proof {
        reveal(spec_expect_operator);
    }
    if !p.keyword(Kw::Let)? {
        return Ok(None);
    }
    let identifier = match p.identifier()? {
        Some(i) => i,
        None => return Err(p.error(ErroVar::VariableDeclarationMissingIdentifier)),
    };
    if !p.operator(Op::Colon)? {
        p.warn(WarnVar::VariableDeclarationMissingTypeSeparator)?;
    }
    let data_type = match parse_type(p)? {
        Some(t) => t,
        None => return Err(p.error(ErroVar::VariableDeclarationMissingType)),
    };
    if !p.operator(Op::Equal)? {
        p.warn(WarnVar::VariableDeclarationMissingEqualsSign)?;
    }
    let expression = match parse_control_flow_expression(p)? {
        Some(e) => e,
        None => return Err(p.error(ErroVar::VariableDeclarationMissingExpression)),
    };
    Ok(Some(Expression::Declaration(DeclarationExpr::new(identifier, data_type, expression))))
}

} // verus!
